//! The parts of the runtime on values with known results.
use chrome_runtime::admission::{constant_time_eq, on_request, parse_proxy_query, ProxyRequest};
use chrome_runtime::assets::{asset_chunk, validate_asset_file_name};
use chrome_runtime::config::{desktop_state_path, runtime_config, sha256_file, ClientRead};
use chrome_runtime::connection::{
    app_server_accepted, browser_accepted, read_failure, relay_after_send, relay_step,
    run_proxy_step, socket_connected, socket_looked_up, ConnectionStep, End, ListenerAction, ListenerEvent,
    Received, RelayAction, Timed,
};
use chrome_runtime::encode::{hex_encode, hex_of_drawn, random_hex, sha256_hex, short_hash};
use chrome_runtime::endpoint::{
    display_address, ipv4_address, ipv6_address, local_app_server_url, proxy_bind_address,
    IpAddress, IpBits, SocketAddress, LOCALHOST,
};
use chrome_runtime::error::RuntimeError;
use chrome_runtime::files::{
    executable_in_path, private_dir_fault, private_dir_state, required_path_error, validate_openable_file,
    validate_owned_dir, validate_owned_file, FileStat, OwnedFile, PrivateDir, UserIds,
};
use chrome_runtime::json::{Json, JsonNumber};
use chrome_runtime::manager::is_runtime_request;
use chrome_runtime::manifest::{
    decode_entry, parse_constraints, RuntimeConstraints, RuntimeEntry, RuntimePaths,
};
use chrome_runtime::paths::{display_path, join_path, path_extension, same_path};
use chrome_runtime::process::{
    app_server_command, client_socket_path, process_is_reusable, stop_managed_process, ChildStatus,
    ManagedProcess, StopAction, StopPhase,
};
use chrome_runtime::roots::{
    manifest_paths, private_runtime_base, runtime_root_for, unique_runtime_root, HostFacts,
    ManifestEnv, NamedDir,
};
use chrome_runtime::selection::{
    choose_entry, manifest_entries, matching_entries, validate_runtime_entry, EntryFacts,
    FileIdentity, ManifestRead, RuntimeManifest,
};

const IDS: UserIds = UserIds { euid: 1000, egid: 1000 };

fn stat(mode: u32) -> FileStat {
    FileStat {
        is_file: true,
        is_dir: false,
        is_symlink: false,
        is_socket: false,
        mode,
        uid: 1000,
        gid: 1000,
    }
}

fn dir(mode: u32) -> FileStat {
    FileStat { is_file: false, is_dir: true, ..stat(mode) }
}

fn text(s: &str) -> Json {
    Json::text(s)
}

fn object(members: Vec<(&str, Json)>) -> Json {
    Json::Object(members.into_iter().map(|(name, value)| (name.to_string(), value)).collect())
}

fn entry() -> RuntimeEntry {
    RuntimeEntry {
        schema_version: 2,
        app_server_protocol_version: 2,
        app_version: "1.2.3".to_string(),
        channel: "prod".to_string(),
        cli_version: "1.2.4".to_string(),
        entry_id: "entry".to_string(),
        extension_build_channels: vec!["prod".to_string()],
        extension_ids: vec!["extension".to_string()],
        install_id: "install".to_string(),
        native_host_names: vec!["host".to_string()],
        native_host_protocol_version: 2,
        native_host_version: "1.2.5".to_string(),
        paths: RuntimePaths {
            browser_client_path: Some("/opt/client.mjs".to_string()),
            codex_cli_path: "/opt/codex".to_string(),
            codex_home: "/home/u/.codex".to_string(),
            extension_host_path: "/opt/host".to_string(),
            node_path: "/opt/node".to_string(),
            node_module_dirs: vec!["/opt/modules".to_string()],
            node_repl_path: Some("/opt/repl".to_string()),
            resources_path: "/opt/resources".to_string(),
        },
        proxy_host: "127.0.0.1".to_string(),
        proxy_port: 41000,
        updated_at: "2026-07-10T00:00:00Z".to_string(),
    }
}

fn constraints() -> RuntimeConstraints {
    RuntimeConstraints {
        extension_build_channel: "prod".to_string(),
        extension_id: "extension".to_string(),
        extension_version: "1.2.3".to_string(),
        native_host_name: "host".to_string(),
        required_app_server_protocol_version: 2,
        required_native_host_protocol_version: 2,
    }
}

#[test]
fn errors_are_framed_by_their_kind() {
    let typed = RuntimeError::typed("manifest_missing", "gone").response(text("a"));
    assert_eq!(typed.get("jsonrpc"), Some(&text("2.0")));
    assert_eq!(typed.get("id"), Some(&text("a")));
    let error = typed.get("error").unwrap();
    assert_eq!(error.get("code"), Some(&Json::unsigned(1)));
    assert_eq!(error.get("message"), Some(&text("gone")));
    assert_eq!(error.get("data"), Some(&object(vec![("type", text("manifest_missing"))])));

    let params = RuntimeError::invalid_params("bad").response(Json::Null);
    let error = params.get("error").unwrap();
    assert_eq!(error.get("code"), Some(&Json::Number(JsonNumber::NegInt(-32602))));
    assert_eq!(error.get("data"), Some(&Json::Null));

    let method = RuntimeError::method_not_found("a/b");
    assert_eq!((method.code, method.message.as_str()), (-32601, "Unsupported native host method: a/b"));
    let internal = RuntimeError::internal("broken");
    assert_eq!((internal.code, internal.kind), (1, Some("app_server_runtime_error")));
}

#[test]
fn runtime_requests_are_told_by_id_and_method() {
    let request = |method: &str| {
        object(vec![("id", Json::Null), ("method", text(method))])
    };
    assert!(is_runtime_request(&request("codexRuntime/hello")));
    assert!(is_runtime_request(&request("codexRuntime/")));
    assert!(!is_runtime_request(&request("codexRuntime")));
    assert!(!is_runtime_request(&object(vec![("method", text("codexRuntime/hello"))])));
    assert!(!is_runtime_request(&object(vec![("id", Json::Null), ("method", Json::unsigned(1))])));
    assert!(!is_runtime_request(&Json::Array(vec![])));
}

#[test]
fn bytes_are_encoded_and_digested() {
    assert_eq!(hex_encode(&[0x00, 0x0f, 0xa5, 0xff]), "000fa5ff");
    assert_eq!(hex_encode(&[]), "");
    assert_eq!(
        sha256_hex(b"abc"),
        "ba7816bf8f01cfea414140de5dae2223b00361a396177a9cb410ff61f20015ad"
    );
    assert_eq!(short_hash(b"abc"), "ba7816bf8f01cfea");
    let a = random_hex(16).unwrap();
    let b = random_hex(16).unwrap();
    assert_eq!(a.len(), 32);
    assert_ne!(a, b);
    assert!(a.chars().all(|c| c.is_ascii_hexdigit() && !c.is_ascii_uppercase()));
    assert_eq!(random_hex(0).unwrap(), "");
    assert_eq!(hex_of_drawn(Ok(vec![0x10, 0x0a])), Ok("100a".to_string()));
    assert_eq!(hex_of_drawn(Err("no entropy".to_string())), Err("no entropy".to_string()));
}

#[test]
fn bytes_are_compared_whole() {
    assert!(constant_time_eq(b"secret", b"secret"));
    assert!(!constant_time_eq(b"secret", b"secreT"));
    assert!(!constant_time_eq(b"secret", b"secret0"));
    assert!(constant_time_eq(b"", b""));
}

#[test]
fn queries_are_admitted_item_by_item() {
    assert_eq!(parse_proxy_query(None, "secret"), Err("Forbidden"));
    assert_eq!(parse_proxy_query(Some(""), "secret"), Err("Forbidden"));
    assert_eq!(parse_proxy_query(Some("token"), "secret"), Err("Forbidden"));
    assert_eq!(parse_proxy_query(Some("token=secret&"), "secret"), Err("Forbidden"));
    assert_eq!(parse_proxy_query(Some("clientId=a"), "secret"), Err("Forbidden"));
    assert_eq!(parse_proxy_query(Some("token=secret&clientId="), "secret"), Err("Forbidden"));
    assert_eq!(parse_proxy_query(Some("token=s\u{e9}"), "s\u{e9}"), Err("Forbidden"));
    assert_eq!(parse_proxy_query(Some("token=a=b"), "a=b"), Ok("default".to_string()));
}

#[test]
fn requests_are_refused_with_a_status() {
    let request = |origin: Option<&str>, path: &str| ProxyRequest {
        origin: origin.map(str::to_string),
        path: path.to_string(),
        query: Some("token=secret".to_string()),
    };
    let origin = "chrome-extension://abc";
    assert_eq!(on_request(&request(Some(origin), "/"), origin, "secret").unwrap(), "default");
    assert_eq!(
        on_request(&request(Some("chrome-extension://abc/"), "/"), origin, "secret").unwrap(),
        "default"
    );
    let lost = on_request(&request(Some(origin), "/rpc"), origin, "secret").unwrap_err();
    assert_eq!((lost.status, lost.body.as_str()), (404, "Not Found"));
    let none = on_request(&request(None, "/rpc"), origin, "secret").unwrap_err();
    assert_eq!((none.status, none.body.as_str()), (403, "Forbidden"));
    let token = on_request(&request(Some(origin), "/"), origin, "other").unwrap_err();
    assert_eq!((token.status, token.body.as_str()), (403, "Forbidden"));
}

#[test]
fn paths_are_joined_and_compared() {
    assert_eq!(join_path(b"/a", "b/c"), b"/a/b/c");
    assert_eq!(join_path(b"/a/", "b"), b"/a/b");
    assert_eq!(join_path(b"", "b"), b"b");
    assert_eq!(join_path(b"/a", "/b"), b"/b");
    assert!(same_path(b"/a//b/./c/", b"/a/b/c"));
    assert!(!same_path(b"/a/b", b"a/b"));
    assert!(!same_path(b"./a", b"a"));
    assert!(!same_path(b"/a/../b", b"/b"));
    assert_eq!(path_extension(b"/a/b.tar.gz"), Some(b"gz".to_vec()));
    assert_eq!(path_extension(b"/a/.profile"), None);
    assert_eq!(path_extension(b"/a.d/b"), None);
    assert_eq!(path_extension(b"/a/b."), Some(Vec::new()));
    assert_eq!(path_extension(b"/a.x/.."), None);
    assert_eq!(display_path("/tmp/\u{e9}".as_bytes()), "/tmp/\u{e9}");
    assert_eq!(display_path(b"/tmp/\xff"), "/tmp/\u{fffd}");
}

#[test]
fn manifests_are_looked_for_in_order() {
    let env = |manifest: Option<&str>, state: Option<&str>, codex: Option<&str>, home: Option<&str>| {
        manifest_paths(&ManifestEnv {
            manifest: manifest.map(|s| s.as_bytes().to_vec()),
            xdg_state_home: state.map(|s| s.as_bytes().to_vec()),
            codex_home: codex.map(|s| s.as_bytes().to_vec()),
            home: home.map(|s| s.as_bytes().to_vec()),
        })
        .into_iter()
        .map(|path| String::from_utf8(path).unwrap())
        .collect::<Vec<String>>()
    };
    assert_eq!(env(Some("/m.json"), Some("/s"), None, Some("/h")), vec!["/m.json"]);
    assert_eq!(
        env(None, Some("/s"), Some("/c"), Some("/h")),
        vec![
            "/s/openai-codex/chrome-native-hosts-v2.json",
            "/c/chrome-native-hosts-v2.json"
        ]
    );
    assert_eq!(
        env(None, None, None, Some("/h")),
        vec![
            "/h/.local/state/openai-codex/chrome-native-hosts-v2.json",
            "/h/.codex/chrome-native-hosts-v2.json"
        ]
    );
    assert_eq!(
        env(None, Some("/s/"), Some("/s//openai-codex"), None),
        vec!["/s/openai-codex/chrome-native-hosts-v2.json"]
    );
    assert!(env(None, None, None, None).is_empty());
}

fn facts(xdg: Option<NamedDir>, home: Option<NamedDir>) -> HostFacts {
    HostFacts { uid: 1000, pid: 42, xdg_runtime_dir: xdg, home, nanos_since_epoch: Some(7) }
}

fn named(path: &str, stat: FileStat) -> Option<NamedDir> {
    Some(NamedDir { path: path.as_bytes().to_vec(), stat: Some(stat) })
}

#[test]
fn runtime_roots_are_private_and_short() {
    let own = facts(named("/run/user/1000", dir(0o700)), named("/home/u", dir(0o755)));
    assert_eq!(runtime_root_for(&own, "b", "n"), b"/run/user/1000/cdx-r/h-42-n");
    let open = facts(named("/run/user/1000", dir(0o750)), named("/home/u", dir(0o755)));
    assert_eq!(runtime_root_for(&open, "b", "n"), b"/home/u/.cache/cdx-r/h-42-n");
    let foreign = facts(None, named("/home/u", FileStat { uid: 0, ..dir(0o755) }));
    assert_eq!(private_runtime_base(&foreign, "b"), b"/tmp/codex-chrome-runtime-1000-b");
    assert_eq!(
        runtime_root_for(&foreign, "b", "n"),
        b"/tmp/codex-chrome-runtime-1000-b/cdx-r/h-42-n"
    );
    let long = facts(named(&format!("/{}", "x".repeat(80)), dir(0o700)), None);
    assert_eq!(runtime_root_for(&long, "b", "n"), b"/tmp/cdx-r-1000-n/h-42-n");
    let drawn = String::from_utf8(unique_runtime_root(&own)).unwrap();
    let nonce = drawn.strip_prefix("/run/user/1000/cdx-r/h-42-").unwrap();
    assert_eq!(nonce.len(), 16);
    assert_ne!(unique_runtime_root(&own), drawn.into_bytes());
}

#[test]
fn constraints_are_read_by_name_or_in_order() {
    let by_name = object(vec![
        ("extensionBuildChannel", text("prod")),
        ("extensionId", text("extension")),
        ("extensionVersion", text("1.2.3")),
        ("nativeHostName", text("host")),
        ("requiredAppServerProtocolVersion", Json::unsigned(2)),
        ("requiredNativeHostProtocolVersion", Json::unsigned(3)),
        ("more", Json::Null),
    ]);
    let in_order = Json::Array(vec![
        text("prod"),
        text("extension"),
        text("1.2.3"),
        text("host"),
        Json::unsigned(2),
        Json::unsigned(3),
    ]);
    for value in [by_name, in_order] {
        let read = parse_constraints(&value).unwrap();
        assert_eq!(read.extension_id, "extension");
        assert_eq!(read.native_host_name, "host");
        assert_eq!(read.required_native_host_protocol_version, 3);
    }
    let too_large = object(vec![
        ("extensionBuildChannel", text("prod")),
        ("extensionId", text("extension")),
        ("extensionVersion", text("1.2.3")),
        ("nativeHostName", text("host")),
        ("requiredAppServerProtocolVersion", Json::unsigned(4_294_967_296)),
        ("requiredNativeHostProtocolVersion", Json::unsigned(3)),
    ]);
    let error = parse_constraints(&too_large).unwrap_err();
    assert_eq!(error.message, "Invalid Codex runtime constraints");
    assert!(parse_constraints(&Json::Null).is_err());
}

fn entry_json(id: &str, updated_at: &str) -> Json {
    object(vec![
        ("schemaVersion", Json::unsigned(2)),
        ("appServerProtocolVersion", Json::unsigned(2)),
        ("appVersion", text("1")),
        ("channel", text("prod")),
        ("cliVersion", text("1")),
        ("entryId", text(id)),
        ("extensionBuildChannels", Json::Array(vec![text("beta"), text("prod")])),
        ("extensionIds", Json::Array(vec![text("extension")])),
        ("installId", text("install")),
        ("nativeHostNames", Json::Array(vec![text("host")])),
        ("nativeHostProtocolVersion", Json::unsigned(2)),
        ("nativeHostVersion", text("1")),
        (
            "paths",
            object(vec![
                ("browserClientPath", Json::Null),
                ("codexCliPath", text("/c")),
                ("codexHome", text("/h")),
                ("extensionHostPath", text("/e")),
                ("nodePath", text("/n")),
                ("nodeModuleDirs", Json::Array(vec![text("/m")])),
                ("resourcesPath", text("/r")),
            ]),
        ),
        ("proxyHost", text("::1")),
        ("proxyPort", Json::unsigned(65535)),
        ("updatedAt", text(updated_at)),
    ])
}

#[test]
fn entries_are_decoded_and_chosen_by_date() {
    let decoded = decode_entry(&entry_json("a", "2026")).unwrap();
    assert_eq!(decoded.proxy_port, 65535);
    assert_eq!(decoded.paths.node_module_dirs, vec!["/m"]);
    assert_eq!(decoded.paths.browser_client_path, None);
    assert!(decode_entry(&Json::Null).is_none());
    let values = vec![
        entry_json("old", "2025"),
        Json::Null,
        entry_json("new", "2026"),
        entry_json("same", "2026"),
        entry_json("foreign", "2030"),
    ];
    let candidates = matching_entries(&values, &constraints());
    assert_eq!(candidates.len(), 4);
    let here = FileIdentity { device: 1, inode: 2 };
    let there = FileIdentity { device: 1, inode: 3 };
    let hosts = vec![Some(here), Some(here), Some(here), Some(there)];
    assert_eq!(choose_entry(candidates, &hosts, here).unwrap().entry_id, "new");
    let candidates = matching_entries(&values, &constraints());
    let error = choose_entry(candidates, &vec![None, None, None, None], here).unwrap_err();
    assert_eq!(error.kind, Some("no_matching_codex_install"));
}

#[test]
fn manifests_are_at_fault_in_order() {
    let manifest = |version: u32| {
        ManifestRead::Parsed(RuntimeManifest { schema_version: version, entries: vec![Json::Null] })
    };
    let message = |reads: Vec<ManifestRead>| manifest_entries(reads).unwrap_err().message;
    assert_eq!(
        message(vec![manifest(2), manifest(3), ManifestRead::Unreadable]),
        "Codex Chrome native host manifest must use schemaVersion 2"
    );
    assert_eq!(
        message(vec![ManifestRead::Unreadable, manifest(3)]),
        "Codex Chrome native host v2 manifest is invalid"
    );
    assert_eq!(message(vec![]), "Codex Chrome native host v2 manifest is missing");
    let listed = manifest_entries(vec![manifest(2), ManifestRead::Missing, manifest(2)]).unwrap();
    assert_eq!(listed, vec![Json::Null, Json::Null]);
}

fn file(mode: u32) -> OwnedFile {
    OwnedFile { target: Some(stat(mode)), parents: vec![Some(dir(0o755))] }
}

fn entry_facts() -> EntryFacts {
    let host = FileIdentity { device: 1, inode: 2 };
    EntryFacts {
        ids: IDS,
        codex_home: Some(dir(0o700)),
        resources_path: Some(FileStat { uid: 0, gid: 0, ..dir(0o755) }),
        codex_cli_path: file(0o755),
        extension_host_path: file(0o755),
        node_path: file(0o755),
        node_repl_path: file(0o755),
        browser_client_path: file(0o644),
        node_module_dirs: vec![Some(dir(0o755))],
        current_host: Some(host),
        configured_host: Some(host),
    }
}

#[test]
fn entries_are_checked_path_by_path() {
    assert!(validate_runtime_entry(&entry(), &entry_facts()).is_ok());
    let mut blank = entry();
    blank.cli_version = " \t".to_string();
    let error = validate_runtime_entry(&blank, &entry_facts()).unwrap_err();
    assert_eq!(error.message, "Matching manifest entry is malformed");

    let message = |facts: EntryFacts| validate_runtime_entry(&entry(), &facts).unwrap_err().message;
    let missing = |field: &str| {
        format!("Codex app-server manifest entry is missing required path {field}")
    };
    assert_eq!(required_path_error("x").message, missing("x"));
    assert_eq!(required_path_error("x").kind, Some("required_path_missing"));
    let root_home = FileStat { uid: 0, gid: 0, ..dir(0o700) };
    assert_eq!(
        message(EntryFacts { codex_home: Some(root_home), ..entry_facts() }),
        missing("directory")
    );
    assert_eq!(message(EntryFacts { node_path: file(0o644), ..entry_facts() }), missing("executable"));
    assert_eq!(
        message(EntryFacts { node_repl_path: file(0o757), ..entry_facts() }),
        missing("file")
    );
    assert_eq!(
        message(EntryFacts { node_module_dirs: vec![None], ..entry_facts() }),
        missing("directory")
    );
    assert_eq!(
        message(EntryFacts { configured_host: None, ..entry_facts() }),
        missing("extensionHostPath")
    );
    let other = Some(FileIdentity { device: 1, inode: 3 });
    assert_eq!(
        message(EntryFacts { configured_host: other, ..entry_facts() }),
        "No compatible Codex app-server entry was found"
    );
}

#[test]
fn owners_and_modes_are_checked() {
    assert!(validate_owned_file("codex", &file(0o755), true, &IDS).is_err());
    assert!(validate_owned_file("/codex", &file(0o755), true, &IDS).is_ok());
    let foreign = OwnedFile {
        target: Some(FileStat { uid: 7, ..stat(0o755) }),
        parents: vec![Some(dir(0o755))],
    };
    assert!(validate_owned_file("/codex", &foreign, false, &IDS).is_err());
    let orphan = OwnedFile { target: Some(stat(0o755)), parents: vec![] };
    assert_eq!(
        validate_owned_file("/codex", &orphan, false, &IDS).unwrap_err().message,
        "Codex app-server manifest entry is missing required path parent"
    );
    let shared = FileStat { gid: 7, ..dir(0o770) };
    assert!(validate_owned_dir("/d", &Some(shared), false, &IDS).is_err());
    assert!(validate_owned_dir("/d", &Some(dir(0o770)), false, &IDS).is_ok());
    assert_eq!(private_dir_state(&dir(0o700), &IDS), PrivateDir::Ready);
    assert_eq!(private_dir_state(&dir(0o40755), &IDS), PrivateDir::Restrict);
    assert_eq!(private_dir_state(&stat(0o700), &IDS), PrivateDir::NotADirectory);
    let theirs = FileStat { uid: 0, ..dir(0o700) };
    assert_eq!(private_dir_state(&theirs, &IDS), PrivateDir::UnexpectedOwner);
    assert_eq!(private_dir_fault(PrivateDir::Ready), None);
    assert_eq!(private_dir_fault(PrivateDir::Restrict), None);
    assert_eq!(
        private_dir_fault(PrivateDir::NotADirectory),
        Some("runtime path is not a directory")
    );
    assert_eq!(
        private_dir_fault(PrivateDir::UnexpectedOwner),
        Some("runtime directory has an unexpected owner")
    );
    assert!(executable_in_path(&vec![None, Some(stat(0o644)), Some(stat(0o755))]));
    assert!(!executable_in_path(&vec![None, Some(dir(0o755))]));
}

#[test]
fn local_files_are_refused_for_a_reason() {
    let message = |path: &str, stat: Option<FileStat>| {
        validate_openable_file(path, &stat).unwrap_err().message
    };
    assert_eq!(message("a.txt", Some(stat(0o644))), "Local file path must be absolute");
    assert_eq!(message("/a.txt", None), "Local file does not exist");
    assert_eq!(message("/a", Some(dir(0o755))), "Invalid local file path");
    assert_eq!(
        message("/a.JAR", Some(stat(0o644))),
        "Opening executable files is not supported"
    );
    assert!(validate_openable_file("/a.jars", &Some(stat(0o644))).is_ok());
    assert!(validate_openable_file("/.jar", &Some(stat(0o644))).is_ok());
}

#[test]
fn installations_are_told_of() {
    let client = ClientRead::Read(b"abc".to_vec());
    let config = runtime_config(&entry(), &client, &None).unwrap();
    assert_eq!(config.get("browserClientPath"), Some(&text("/opt/client.mjs")));
    assert_eq!(config.get("nodeModuleDirs"), Some(&Json::Array(vec![text("/opt/modules")])));
    assert_eq!(config.get("nodeReplPath"), Some(&text("/opt/repl")));
    assert_eq!(
        config.get("trustedBrowserClientSha256s"),
        Some(&Json::Array(vec![text(
            "ba7816bf8f01cfea414140de5dae2223b00361a396177a9cb410ff61f20015ad"
        )]))
    );
    assert_eq!(desktop_state_path("/home/u/.codex"), b"/home/u/.codex/.codex-global-state.json");
    let mut plain = entry();
    plain.paths.browser_client_path = None;
    let config = runtime_config(&plain, &ClientRead::NotOpened, &Some("[]".to_string())).unwrap();
    assert_eq!(config.get("trustedBrowserClientSha256s"), Some(&Json::Array(vec![])));
    assert_eq!(config.get("desktopAgentModeDefaults"), Some(&Json::Null));
    assert_eq!(
        runtime_config(&entry(), &ClientRead::NotOpened, &None).unwrap_err().message,
        "Codex app-server manifest entry is missing required path browserClientPath"
    );
    assert_eq!(
        sha256_file(&ClientRead::Failed("gone".to_string())).unwrap_err().message,
        "Failed to hash Browser Use client: gone"
    );
}

#[test]
fn addresses_are_loopback_and_written_down() {
    let six = |n: u128, s: &str| Some(IpAddress { bits: IpBits::V6(n), text: s.to_string() });
    let mut at = entry();
    at.proxy_host = "::1".to_string();
    let address = proxy_bind_address(&at, six(1, "::1")).unwrap();
    assert_eq!(display_address(&address), "[::1]:41000");
    assert_eq!(local_app_server_url(&address, "t0"), "ws://[::1]:41000/?token=t0");
    at.proxy_host = "localhost".to_string();
    let address = proxy_bind_address(&at, None).unwrap();
    assert_eq!(address.ip.bits, IpBits::V4(LOCALHOST));
    assert_eq!(display_address(&address), "127.0.0.1:41000");
    at.proxy_host = "::2".to_string();
    assert_eq!(
        proxy_bind_address(&at, six(2, "::2")).unwrap_err().message,
        "Codex app-server proxy must use a loopback address"
    );
    at.proxy_host = "example.com".to_string();
    let error = proxy_bind_address(&at, None).unwrap_err();
    assert_eq!(error.message, "Codex app-server proxy host is invalid");
    assert_eq!(error.kind, Some("manifest_invalid"));
    let other = SocketAddress {
        ip: IpAddress { bits: IpBits::V4(0x7fff_ffff), text: "127.255.255.255".to_string() },
        port: 1,
    };
    assert!(other.ip.is_loopback());
    assert_eq!(ipv4_address(LOCALHOST).text, "127.0.0.1");
    assert_eq!(ipv4_address(0x0a00_ff64).text, "10.0.255.100");
    assert_eq!(ipv4_address(0x0a00_ff64).bits, IpBits::V4(0x0a00_ff64));
    assert_eq!(ipv6_address(1, "0:0:0:0:0:0:0:1".to_string()).text, "::1");
    assert_eq!(ipv6_address(2, "::2".to_string()).text, "::2");
}

#[test]
fn servers_are_run_with_their_surroundings() {
    let command = app_server_command(&entry(), "ext", 52000, b"/run/a.sock");
    assert_eq!(command.program, "/opt/codex");
    assert_eq!(
        command.args,
        vec!["app-server", "--listen", "unix:///run/a.sock", "--analytics-default-enabled"]
    );
    let envs: Vec<(&str, &str)> =
        command.envs.iter().map(|env| (env.0.as_str(), env.1.as_str())).collect();
    assert_eq!(
        envs,
        vec![
            ("CODEX_HOME", "/home/u/.codex"),
            ("CODEX_CLI_PATH", "/opt/codex"),
            ("CODEX_EXTENSION_ID", "ext"),
            ("CODEX_BROWSER_USE_NODE_PATH", "/opt/node"),
            ("CODEX_APP_SERVER_PROXY_HOST", "127.0.0.1"),
            ("CODEX_APP_SERVER_PROXY_PORT", "52000"),
            ("CODEX_BROWSER_CLIENT_PATH", "/opt/client.mjs"),
            ("CODEX_NODE_REPL_PATH", "/opt/repl"),
        ]
    );
    assert_eq!(client_socket_path(b"/run", "default"), b"/run/a-37a8eec1ce19687d.sock");
    let process = ManagedProcess {
        entry_id: "entry".to_string(),
        process_group: 1,
        proxy_host: "127.0.0.1".to_string(),
        proxy_port: 52000,
        socket_path: Vec::new(),
    };
    let failed = ChildStatus::Failed("no child".to_string());
    let error = process_is_reusable(&process, &entry(), 52000, false, &failed, &None, &IDS);
    assert_eq!(error.unwrap_err().message, "Failed to inspect Codex app-server: no child");
    let gone = ChildStatus::Exited("exit status: 1".to_string());
    assert!(!process_is_reusable(&process, &entry(), 52000, false, &gone, &None, &IDS).unwrap());
}

#[test]
fn servers_are_stopped_gently_first() {
    let mut phase = StopPhase::Begin;
    let mut actions = Vec::new();
    for (exited, expired) in [(false, false), (false, false), (false, true), (false, true)] {
        let (action, next) = stop_managed_process(phase, exited, expired);
        actions.push(action);
        phase = next;
    }
    assert_eq!(
        actions,
        vec![StopAction::Terminate, StopAction::Pause, StopAction::Look, StopAction::KillAndReap]
    );
    assert_eq!(stop_managed_process(StopPhase::Begin, true, false).0, StopAction::Reap);
    assert_eq!(stop_managed_process(StopPhase::Terminating, true, false).0, StopAction::Look);
    assert_eq!(stop_managed_process(StopPhase::LastLook, true, true).0, StopAction::Reap);
}

fn given_up(step: ConnectionStep) -> String {
    match step {
        ConnectionStep::GiveUp(reason) => reason,
        other => panic!("unexpected step: {other:?}"),
    }
}

#[test]
fn connections_go_through_their_stages() {
    assert!(matches!(
        browser_accepted(Timed::Done(Some("a".to_string()))),
        ConnectionStep::LookUpSocket(client) if client == "a"
    ));
    assert_eq!(
        given_up(browser_accepted(Timed::TimedOut)),
        "browser WebSocket handshake timed out"
    );
    assert_eq!(given_up(browser_accepted(Timed::Failed)), "browser WebSocket handshake failed");
    assert_eq!(
        given_up(browser_accepted(Timed::Done(None))),
        "proxy client id was not selected"
    );
    assert!(matches!(
        socket_looked_up(Ok(vec![1])),
        ConnectionStep::ConnectSocket(path) if path == vec![1]
    ));
    assert_eq!(given_up(socket_looked_up(Err(RuntimeError::internal("none")))), "none");
    assert!(matches!(socket_connected(Timed::Done(()), "/s"), ConnectionStep::AskAppServer));
    assert_eq!(given_up(socket_connected(Timed::Failed, "/s")), "failed to connect /s");
    assert_eq!(
        given_up(socket_connected(Timed::TimedOut, "/s")),
        "app-server Unix socket connection timed out"
    );
    assert!(matches!(app_server_accepted(Timed::Done(())), ConnectionStep::Relay));
    assert_eq!(
        given_up(app_server_accepted(Timed::Failed)),
        "app-server WebSocket handshake failed"
    );
    assert_eq!(
        given_up(app_server_accepted(Timed::TimedOut)),
        "app-server WebSocket handshake timed out"
    );
    assert_eq!(
        relay_step(End::Browser, Received::Message),
        RelayAction::PassOnTo(End::AppServer)
    );
    assert_eq!(
        relay_step(End::AppServer, Received::Message),
        RelayAction::PassOnTo(End::Browser)
    );
    assert_eq!(relay_step(End::Browser, Received::Closed), RelayAction::Close);
    assert_eq!(
        relay_step(End::AppServer, Received::Failed),
        RelayAction::FailedToRead(End::AppServer)
    );
    assert_eq!(relay_after_send(true), None);
    assert_eq!(relay_after_send(false), Some(RelayAction::Close));
    assert_eq!(read_failure(End::Browser), "browser WebSocket read failed");
    assert_eq!(read_failure(End::AppServer), "app-server WebSocket read failed");
    assert_eq!(run_proxy_step(ListenerEvent::Shutdown), ListenerAction::Stop);
    assert_eq!(run_proxy_step(ListenerEvent::AcceptFailed), ListenerAction::PassOver);
    assert_eq!(
        run_proxy_step(ListenerEvent::Accepted { permit: true }),
        ListenerAction::Serve
    );
    assert_eq!(
        run_proxy_step(ListenerEvent::Accepted { permit: false }),
        ListenerAction::PassOver
    );
}

#[test]
fn asset_parameters_are_checked() {
    let long = "x".repeat(256);
    for name in [".", "..", "a/b", "a\\b", "a\0b", long.as_str()] {
        let error = validate_asset_file_name(name).unwrap_err();
        assert_eq!(error.message, "Invalid Chrome tab context asset file name");
    }
    assert!(validate_asset_file_name(&"x".repeat(255)).is_ok());
    assert!(validate_asset_file_name("...").is_ok());
    let chunk = asset_chunk(&object(vec![
        ("assetId", text("a")),
        ("dataBase64", text("aGVsbG8=")),
    ]))
    .unwrap();
    assert_eq!((chunk.asset_id.as_str(), chunk.data.as_slice()), ("a", b"hello".as_slice()));
    let missing = asset_chunk(&object(vec![("assetId", text("a")), ("dataBase64", text(""))]));
    assert_eq!(missing.unwrap_err().message, "Missing required parameter: dataBase64");
    let unpadded = asset_chunk(&object(vec![("assetId", text("a")), ("dataBase64", text("aA"))]));
    assert_eq!(unpadded.unwrap_err().message, "Invalid Chrome tab context asset chunk");
}
