//! The runtime, driven through its steps with outcomes that the tests make up.
use chrome_runtime::admission::{
    normalized_client_id, parse_proxy_query, validate_proxy_request, ProxyRequest,
    MAX_CLIENT_ID_BYTES,
};
use chrome_runtime::assets::{
    MAX_ACTIVE_ASSETS, MAX_ASSET_BYTES, MAX_ASSET_CHUNK_BASE64,
};
use chrome_runtime::config::{desktop_agent_mode_defaults, ClientRead};
use chrome_runtime::endpoint::{IpAddress, IpBits, SocketAddress, LOCALHOST};
use chrome_runtime::files::{
    has_unsafe_write_permissions, socket_is_ready, validate_openable_file, validate_owned_file,
    FileStat, OwnedFile, UserIds,
};
use chrome_runtime::json::{Json, JsonNumber};
use chrome_runtime::json_text::parse_json;
use chrome_runtime::manager::{is_runtime_value, RuntimeManager};
use chrome_runtime::manifest::{RuntimeConstraints, RuntimeEntry, RuntimePaths};
use chrome_runtime::process::{client_socket_path, process_is_reusable, ChildStatus, ManagedProcess};
use chrome_runtime::roots::{
    unique_runtime_root, unix_socket_path_fits, HostFacts, NamedDir, MAX_UNIX_SOCKET_PATH_BYTES,
};
use chrome_runtime::selection::{EntryFacts, FileIdentity, ManifestRead, RuntimeManifest};
use chrome_runtime::steps::{
    BindJob, EnsureJob, ListenerSetup, ProxyStart, ProxyWork, Removal, RootPurpose, ServeJob, Step,
};
use tokio_tungstenite::tungstenite::handshake::server::Request;

const EXTENSION: &str = "abcdefghijklmnopabcdefghijklmnop";

const ROOT: &str = "/run/user/1000/cdx-r/h-1-0000000000000000";

const IDS: UserIds = UserIds { euid: 1000, egid: 1000 };

fn object(members: Vec<(&str, Json)>) -> Json {
    Json::Object(members.into_iter().map(|(name, value)| (name.to_string(), value)).collect())
}

fn text(s: &str) -> Json {
    Json::text(s)
}

fn at<'a>(json: &'a Json, path: &[&str]) -> &'a Json {
    let mut found = json;
    for name in path {
        found = found.get(name).unwrap();
    }
    found
}

fn manager(extension_id: Option<&str>) -> RuntimeManager {
    RuntimeManager::with_runtime_root(
        extension_id.map(str::to_string),
        ROOT.as_bytes().to_vec(),
        None,
    )
}

fn stat(mode: u32) -> FileStat {
    FileStat {
        is_file: true,
        is_dir: false,
        is_symlink: false,
        is_socket: false,
        mode,
        uid: 1000,
        gid: 1000,
    }
}

fn dir(mode: u32) -> FileStat {
    FileStat { is_file: false, is_dir: true, ..stat(mode) }
}

fn socket() -> FileStat {
    FileStat { is_file: false, is_socket: true, ..stat(0o700) }
}

/// Runs an asset request to its reply; `files` stands for the file system.
fn run_asset(
    manager: &mut RuntimeManager,
    files: &mut Vec<(Vec<u8>, Vec<u8>)>,
    method: &str,
    params: Json,
) -> Result<Json, i64> {
    let message = object(vec![
        ("jsonrpc", text("2.0")),
        ("id", Json::unsigned(1)),
        ("method", text(&format!("codexRuntime/tabContextAsset/{method}"))),
        ("params", params),
    ]);
    let mut step = manager.handle_request(&message);
    loop {
        step = match step {
            Step::Reply(reply) => {
                assert_eq!(at(&reply, &["id"]), &Json::unsigned(1));
                return match reply.get("result") {
                    Some(result) => Ok(result.copy()),
                    None => match at(&reply, &["error", "code"]) {
                        Json::Number(JsonNumber::PosInt(code)) => Err(*code as i64),
                        Json::Number(JsonNumber::NegInt(code)) => Err(*code),
                        other => panic!("no code: {other:?}"),
                    },
                };
            }
            Step::PrepareRoot(purpose) => manager.root_prepared(purpose, Ok(())),
            Step::PrepareAssetDir(job) => {
                assert_eq!(job.path, format!("{ROOT}/codex-tab-context-assets").into_bytes());
                manager.asset_dir_prepared(job, Ok(()))
            }
            Step::LockAssets(work) => manager.assets_locked(work),
            Step::CreateAssetFile(job) => {
                files.push((job.path.clone(), Vec::new()));
                manager.asset_file_created(job, Ok(()))
            }
            Step::WriteAsset(job) => {
                let path = manager.assets.get(&job.chunk.asset_id).unwrap().path.clone();
                let file = files.iter_mut().find(|file| file.0 == path).unwrap();
                file.1.extend_from_slice(&job.chunk.data);
                manager.asset_written(job, Ok(()))
            }
            Step::SyncAsset(job) => manager.asset_synced(job, Ok(())),
            Step::RemoveAssetFile(job) => {
                files.retain(|file| file.0 != job.path);
                manager.asset_file_removed(job, Removal::Removed)
            }
            other => panic!("unexpected step: {other:?}"),
        };
    }
}

/// Shuts the runtime down, and tells how many servers were stopped.
fn shut_down(manager: &mut RuntimeManager) -> usize {
    let mut stopped = 0;
    let mut step = manager.shutdown();
    loop {
        step = match step {
            Step::LockProxy(work) => manager.proxy_locked(work, true),
            Step::StopProxy(work) => manager.proxy_stopped(work),
            Step::LockProcesses(work) => manager.processes_locked(work),
            Step::StopProcess(_, after) => {
                stopped += 1;
                manager.process_stopped(after)
            }
            Step::LockAssets(work) => manager.assets_locked(work),
            Step::RemoveRoot(root) => {
                assert_eq!(root, ROOT.as_bytes());
                return stopped;
            }
            other => panic!("unexpected step: {other:?}"),
        };
    }
}

fn test_constraints() -> RuntimeConstraints {
    RuntimeConstraints {
        extension_build_channel: "prod".to_string(),
        extension_id: EXTENSION.to_string(),
        extension_version: "1.2.3".to_string(),
        native_host_name: "com.openai.codexextension".to_string(),
        required_app_server_protocol_version: 2,
        required_native_host_protocol_version: 2,
    }
}

fn test_entry() -> RuntimeEntry {
    RuntimeEntry {
        schema_version: 2,
        app_server_protocol_version: 2,
        app_version: "1.2.3".to_string(),
        channel: "prod".to_string(),
        cli_version: "1.2.3".to_string(),
        entry_id: "entry".to_string(),
        extension_build_channels: vec!["prod".to_string()],
        extension_ids: vec![EXTENSION.to_string()],
        install_id: "install".to_string(),
        native_host_names: vec!["com.openai.codexextension".to_string()],
        native_host_protocol_version: 2,
        native_host_version: "1.2.3".to_string(),
        paths: RuntimePaths {
            browser_client_path: None,
            codex_cli_path: "/bin/true".to_string(),
            codex_home: "/tmp".to_string(),
            extension_host_path: "/bin/true".to_string(),
            node_path: "/bin/true".to_string(),
            node_module_dirs: Vec::new(),
            node_repl_path: None,
            resources_path: "/tmp".to_string(),
        },
        proxy_host: "127.0.0.1".to_string(),
        proxy_port: 0,
        updated_at: "2026-07-10T00:00:00Z".to_string(),
    }
}

fn manifest_entry_json(entry_id: &str, extension_host_path: &str, updated_at: &str) -> Json {
    object(vec![
        ("schemaVersion", Json::unsigned(2)),
        ("appServerProtocolVersion", Json::unsigned(2)),
        ("appVersion", text("1.2.3")),
        ("channel", text("prod")),
        ("cliVersion", text("1.2.3")),
        ("entryId", text(entry_id)),
        ("extensionBuildChannels", Json::Array(vec![text("prod")])),
        ("extensionIds", Json::Array(vec![text(EXTENSION)])),
        ("installId", text("install")),
        ("nativeHostNames", Json::Array(vec![text("com.openai.codexextension")])),
        ("nativeHostProtocolVersion", Json::unsigned(2)),
        ("nativeHostVersion", text("1.2.3")),
        (
            "paths",
            object(vec![
                ("codexCliPath", text("/bin/true")),
                ("codexHome", text("/tmp")),
                ("extensionHostPath", text(extension_host_path)),
                ("nodePath", text("/bin/true")),
                ("resourcesPath", text("/tmp")),
            ]),
        ),
        ("proxyHost", text("127.0.0.1")),
        ("proxyPort", Json::unsigned(0)),
        ("updatedAt", text(updated_at)),
    ])
}

const CURRENT_HOST: FileIdentity = FileIdentity { device: 1, inode: 7 };

/// The host that a path leads to.
fn identify(path: &str) -> Option<FileIdentity> {
    match path {
        "/proc/self/exe" => Some(CURRENT_HOST),
        "/bin/true" => Some(FileIdentity { device: 1, inode: 8 }),
        _ => None,
    }
}

/// Selects an entry; what is refused comes with its kind.
fn select(constraints: RuntimeConstraints, reads: Vec<ManifestRead>) -> Result<ServeJob, String> {
    let manager = manager(Some(EXTENSION));
    let job = EnsureJob {
        id: Json::Null,
        constraints,
        client_id: "default".to_string(),
        restart: false,
    };
    let mut step = manager.manifests_read(job, reads, Some(CURRENT_HOST));
    loop {
        step = match step {
            Step::IdentifyHosts(job) => {
                let hosts = job
                    .candidates
                    .iter()
                    .map(|entry| identify(&entry.paths.extension_host_path))
                    .collect();
                manager.hosts_identified(job, &hosts)
            }
            Step::InspectEntry(job) => return Ok(job),
            Step::Reply(reply) => {
                return Err(at(&reply, &["error", "data", "type"]).as_str().unwrap().to_string())
            }
            other => panic!("unexpected step: {other:?}"),
        };
    }
}

#[test]
fn parses_proxy_query_and_rejects_untrusted_inputs() {
    assert_eq!(
        parse_proxy_query(Some("token=secret&clientId=sidepanel-window-42"), "secret"),
        Ok("sidepanel-window-42".to_string())
    );
    assert_eq!(
        parse_proxy_query(Some("token=secret"), "secret"),
        Ok("default".to_string())
    );
    assert!(parse_proxy_query(Some("token=wrong"), "secret").is_err());
    assert!(parse_proxy_query(Some("token=secret&token=secret"), "secret").is_err());
    assert!(parse_proxy_query(Some("token=secret&clientId=../escape"), "secret").is_err());
    assert!(parse_proxy_query(Some("token=secret&extra=value"), "secret").is_err());
    assert!(parse_proxy_query(Some("clientId=default&token=secret"), "secret").is_ok());
    assert!(parse_proxy_query(Some("token=secret&clientId=a%2Fb"), "secret").is_err());
}

fn read_request(request: &Request) -> ProxyRequest {
    ProxyRequest {
        origin: request
            .headers()
            .get("origin")
            .and_then(|value| value.to_str().ok())
            .map(str::to_string),
        path: request.uri().path().to_string(),
        query: request.uri().query().map(str::to_string),
    }
}

#[test]
fn proxy_request_requires_exact_origin_path_and_token() {
    let request = Request::builder()
        .uri("/?token=secret&clientId=sidepanel-window-7")
        .header("origin", "chrome-extension://abcdefghijklmnop")
        .body(())
        .unwrap();
    assert_eq!(
        validate_proxy_request(
            &read_request(&request),
            "chrome-extension://abcdefghijklmnop",
            "secret"
        ),
        Ok("sidepanel-window-7".to_string())
    );

    let wrong_origin = Request::builder()
        .uri("/?token=secret")
        .header("origin", "https://example.com")
        .body(())
        .unwrap();
    assert!(validate_proxy_request(
        &read_request(&wrong_origin),
        "chrome-extension://abcdefghijklmnop",
        "secret"
    )
    .is_err());

    let wrong_path = Request::builder()
        .uri("/rpc?token=secret")
        .header("origin", "chrome-extension://abcdefghijklmnop")
        .body(())
        .unwrap();
    assert!(validate_proxy_request(
        &read_request(&wrong_path),
        "chrome-extension://abcdefghijklmnop",
        "secret"
    )
    .is_err());
}

fn localhost(port: u16) -> SocketAddress {
    SocketAddress {
        ip: IpAddress { bits: IpBits::V4(LOCALHOST), text: "127.0.0.1".to_string() },
        port,
    }
}

/// Brings the proxy up where the port `busy` cannot be had and `free` is the
/// one that the system gives instead.
fn ensure_proxy(
    manager: &mut RuntimeManager,
    entry: RuntimeEntry,
    busy: u16,
    free: u16,
) -> (SocketAddress, String) {
    let port = entry.proxy_port;
    let serve = ServeJob {
        id: Json::Null,
        extension_id: EXTENSION.to_string(),
        client_id: "default".to_string(),
        restart: false,
        entry,
    };
    let mut step = Step::LockProxy(ProxyWork::Ensure(BindJob { serve, bind: localhost(port) }));
    loop {
        step = match step {
            Step::LockProxy(work) => manager.proxy_locked(work, true),
            Step::PrepareRoot(purpose) => {
                assert!(matches!(purpose, RootPurpose::Proxy(_)));
                manager.root_prepared(purpose, Ok(()))
            }
            Step::BindListener(job) => {
                assert_eq!(job.address.ip.bits, IpBits::V4(LOCALHOST));
                let outcome = if job.address.port == busy {
                    Err("Address already in use (os error 98)".to_string())
                } else {
                    assert_eq!(job.address.port, 0);
                    Ok(())
                };
                manager.listener_bound(job, outcome)
            }
            Step::ConfigureListener(job) => {
                manager.listener_configured(job, ListenerSetup::Ready(localhost(free)))
            }
            Step::StartProxy(job) => {
                assert_eq!(job.allowed_origin, format!("chrome-extension://{EXTENSION}"));
                manager.proxy_started(job, ProxyStart::Started)
            }
            Step::LockProcesses(chrome_runtime::steps::ProcessWork::Ensure(run)) => {
                return (run.address, run.token)
            }
            other => panic!("unexpected step: {other:?}"),
        };
    }
}

#[test]
fn proxy_reuses_an_available_port_when_the_requested_port_is_busy() {
    let requested_port = 41000;
    let mut manager = manager(Some(EXTENSION));
    let mut entry = test_entry();
    entry.proxy_port = requested_port;
    let (first_address, first_token) = ensure_proxy(&mut manager, entry, requested_port, 52000);
    assert_eq!(first_address.ip.bits, IpBits::V4(LOCALHOST));
    assert_ne!(first_address.port, requested_port);
    let mut entry = test_entry();
    entry.proxy_port = requested_port;
    let (second_address, second_token) = ensure_proxy(&mut manager, entry, requested_port, 53000);
    assert_eq!(second_address.ip.bits, first_address.ip.bits);
    assert_eq!(second_address.port, first_address.port);
    assert_eq!(second_token, first_token);
    assert_eq!(first_token.len(), 64);

    shut_down(&mut manager);
    assert!(manager.proxy.is_none());
}

#[test]
fn validates_client_ids() {
    assert_eq!(normalized_client_id(None).unwrap(), "default");
    assert_eq!(
        normalized_client_id(Some(&text("sidepanel-window-7"))).unwrap(),
        "sidepanel-window-7"
    );
    assert!(normalized_client_id(Some(&text(""))).is_err());
    assert!(normalized_client_id(Some(&text("../sidepanel"))).is_err());
    assert!(normalized_client_id(Some(&Json::unsigned(7))).is_err());
    assert!(normalized_client_id(Some(&text(&"a".repeat(MAX_CLIENT_ID_BYTES + 1)))).is_err());
}

#[test]
fn runtime_requests_return_structured_errors_for_bad_input() {
    let mut manager = manager(Some(EXTENSION));
    let unknown = manager.handle_request(&object(vec![
        ("jsonrpc", text("2.0")),
        ("id", text("unknown")),
        ("method", text("codexRuntime/notSupported")),
        ("params", object(vec![])),
    ]));
    match unknown {
        Step::Reply(reply) => {
            assert_eq!(at(&reply, &["error", "code"]), &Json::Number(JsonNumber::NegInt(-32601)));
            assert_eq!(at(&reply, &["id"]), &text("unknown"));
        }
        other => panic!("unexpected step: {other:?}"),
    }

    let malformed = manager.handle_request(&object(vec![
        ("jsonrpc", text("2.0")),
        ("id", text("malformed")),
        ("method", text("codexRuntime/hello")),
        ("params", object(vec![("constraints", Json::Array(vec![]))])),
    ]));
    match malformed {
        Step::Reply(reply) => {
            assert_eq!(at(&reply, &["error", "code"]), &Json::Number(JsonNumber::NegInt(-32602)));
            assert_eq!(at(&reply, &["id"]), &text("malformed"));
        }
        other => panic!("unexpected step: {other:?}"),
    }
    shut_down(&mut manager);
}

#[test]
fn tab_context_asset_lifecycle_is_bounded_and_idempotent() {
    let mut manager = manager(None);
    let mut files = Vec::new();
    let created = run_asset(
        &mut manager,
        &mut files,
        "create",
        object(vec![("fileName", text("capture.txt"))]),
    )
    .unwrap();
    let asset_id = created.get("assetId").unwrap().copy();
    let path = at(&created, &["path"]).as_str().unwrap().as_bytes().to_vec();
    let named = || object(vec![("assetId", asset_id.copy())]);

    run_asset(
        &mut manager,
        &mut files,
        "appendChunk",
        object(vec![("assetId", asset_id.copy()), ("dataBase64", text("aGVsbG8="))]),
    )
    .unwrap();
    let finished = run_asset(&mut manager, &mut files, "finish", named()).unwrap();
    assert_eq!(finished.get("path"), created.get("path"));
    assert!(run_asset(&mut manager, &mut files, "finish", named()).is_ok());
    assert_eq!(files, vec![(path, b"hello".to_vec())]);
    assert!(run_asset(
        &mut manager,
        &mut files,
        "appendChunk",
        object(vec![("assetId", asset_id.copy()), ("dataBase64", text("IQ=="))]),
    )
    .is_err());
    run_asset(&mut manager, &mut files, "remove", named()).unwrap();
    assert!(files.is_empty());
    assert!(run_asset(&mut manager, &mut files, "remove", named()).is_err());
    shut_down(&mut manager);
}

#[test]
fn tab_context_assets_reject_traversal_and_invalid_base64() {
    let mut manager = manager(None);
    let mut files = Vec::new();
    assert!(run_asset(
        &mut manager,
        &mut files,
        "create",
        object(vec![("fileName", text("../escape.txt"))]),
    )
    .is_err());
    let created = run_asset(
        &mut manager,
        &mut files,
        "create",
        object(vec![("fileName", text("safe.txt"))]),
    )
    .unwrap();
    let asset_id = created.get("assetId").unwrap().copy();
    let chunk = |data: &str| object(vec![("assetId", asset_id.copy()), ("dataBase64", text(data))]);
    assert!(run_asset(&mut manager, &mut files, "appendChunk", chunk("not base64")).is_err());
    assert!(run_asset(
        &mut manager,
        &mut files,
        "appendChunk",
        chunk(&"A".repeat(MAX_ASSET_CHUNK_BASE64 + 1)),
    )
    .is_err());
    for row in manager.assets.rows.iter_mut() {
        if Some(row.0.as_str()) == asset_id.as_str() {
            row.1.size = MAX_ASSET_BYTES;
        }
    }
    assert!(run_asset(&mut manager, &mut files, "appendChunk", chunk("YQ==")).is_err());
    shut_down(&mut manager);
}

#[test]
fn tab_context_asset_count_is_bounded() {
    let mut manager = manager(None);
    let mut files = Vec::new();
    for index in 0..MAX_ACTIVE_ASSETS {
        run_asset(
            &mut manager,
            &mut files,
            "create",
            object(vec![("fileName", text(&format!("capture-{index}.txt")))]),
        )
        .unwrap();
    }
    assert!(run_asset(
        &mut manager,
        &mut files,
        "create",
        object(vec![("fileName", text("one-too-many.txt"))]),
    )
    .is_err());
    shut_down(&mut manager);
    shut_down(&mut manager);
}

#[test]
fn open_local_file_validation_rejects_symlinks_and_executables() {
    assert!(validate_openable_file("/home/u/document.txt", &Some(stat(0o644))).is_ok());
    assert!(validate_openable_file("/home/u/run.sh", &Some(stat(0o700))).is_err());
    assert!(validate_openable_file("/home/u/launcher.desktop", &Some(stat(0o644))).is_err());
    let link = FileStat { is_file: false, is_symlink: true, ..stat(0o777) };
    assert!(validate_openable_file("/home/u/link.txt", &Some(link)).is_err());
}

#[test]
fn entry_matching_requires_all_protocol_and_identity_constraints() {
    let constraints = test_constraints();
    let entry = test_entry();
    assert!(entry.matches(&constraints));

    let mut wrong_protocol = test_entry();
    wrong_protocol.app_server_protocol_version = 3;
    assert!(!wrong_protocol.matches(&constraints));

    let mut wrong_extension = entry;
    wrong_extension.extension_ids = vec!["other".to_string()];
    assert!(!wrong_extension.matches(&constraints));
}

#[test]
fn manifest_selection_ignores_newer_entry_for_another_host() {
    let manifest = RuntimeManifest {
        schema_version: 2,
        entries: vec![
            manifest_entry_json("other-host", "/bin/true", "2099-01-01T00:00:00Z"),
            manifest_entry_json("current-host", "/proc/self/exe", "2026-07-10T00:00:00Z"),
        ],
    };
    let selected = select(test_constraints(), vec![ManifestRead::Parsed(manifest)]).unwrap();
    assert_eq!(selected.entry.entry_id, "current-host");
    assert_eq!(selected.extension_id, EXTENSION);
    assert_eq!(selected.client_id, "default");
}

#[test]
fn manifest_selection_reports_missing_invalid_and_no_match() {
    assert_eq!(
        select(test_constraints(), vec![ManifestRead::Missing]).unwrap_err(),
        "manifest_missing"
    );
    assert_eq!(
        select(test_constraints(), vec![ManifestRead::Malformed]).unwrap_err(),
        "manifest_invalid"
    );
    let manifest = RuntimeManifest {
        schema_version: 2,
        entries: vec![manifest_entry_json(
            "wrong-extension",
            "/proc/self/exe",
            "2026-07-10T00:00:00Z",
        )],
    };
    let mut constraints = test_constraints();
    constraints.extension_id = "other-extension".to_string();
    assert_eq!(
        select(constraints, vec![ManifestRead::Parsed(manifest)]).unwrap_err(),
        "no_matching_codex_install"
    );
}

#[test]
fn runtime_paths_reject_world_writable_files_and_accept_private_group_mode() {
    assert!(!has_unsafe_write_permissions(&stat(0o770), &IDS));
    assert!(has_unsafe_write_permissions(&stat(0o777), &IDS));
}

#[test]
fn executable_validation_rejects_a_world_writable_parent() {
    let executable = OwnedFile {
        target: Some(stat(0o700)),
        parents: vec![Some(dir(0o777)), Some(dir(0o700)), Some(dir(0o755))],
    };
    assert!(validate_owned_file("/home/u/shared/codex", &executable, true, &IDS).is_err());
}

#[test]
fn socket_readiness_requires_an_owned_unix_socket() {
    assert!(!socket_is_ready(&Some(stat(0o644)), &IDS));
    assert!(socket_is_ready(&Some(socket()), &IDS));
}

#[test]
fn runtime_socket_paths_stay_within_the_linux_sun_path_limit() {
    let facts = HostFacts {
        uid: 1000,
        pid: 4_194_304,
        xdg_runtime_dir: Some(NamedDir {
            path: format!("/run/user/{}", "x".repeat(90)).into_bytes(),
            stat: Some(dir(0o700)),
        }),
        home: None,
        nanos_since_epoch: None,
    };
    let root = unique_runtime_root(&facts);
    let socket = [root.as_slice(), b"/a-0000000000000000.sock"].concat();
    assert!(unix_socket_path_fits(&socket));
    let long = format!("/tmp/{}", "x".repeat(MAX_UNIX_SOCKET_PATH_BYTES));
    assert!(!unix_socket_path_fits(long.as_bytes()));
}

#[test]
fn process_reuse_requires_the_current_proxy_endpoint() {
    let process = ManagedProcess {
        entry_id: "entry".to_string(),
        process_group: 4711,
        proxy_host: "127.0.0.1".to_string(),
        proxy_port: 41000,
        socket_path: b"/run/app-server.sock".to_vec(),
    };
    let entry = test_entry();
    let ready = Some(socket());
    let running = ChildStatus::Running;
    let reusable = |port: u16, restart: bool| {
        process_is_reusable(&process, &entry, port, restart, &running, &ready, &IDS).unwrap()
    };
    assert!(reusable(41000, false));
    assert!(!reusable(41001, false));
    assert!(!reusable(41000, true));
}

#[test]
fn desktop_agent_modes_support_current_persisted_state_shape() {
    let state = "{\"electron-persisted-atom-state\": {\
        \"agent-mode-by-host-id\": { \"local\": \"full-access\" },\
        \"preferred-non-full-access-agent-mode-by-host-id\": { \"local\": \"workspace-write\" }\
    }}";
    let defaults = desktop_agent_mode_defaults(&Some(state.to_string())).unwrap();
    assert_eq!(at(&defaults, &["agentModesByHostId", "local"]), &text("full-access"));
    assert_eq!(
        at(&defaults, &["preferredNonFullAccessModesByHostId", "local"]),
        &text("workspace-write")
    );
}

/// Facts of an installation that can be used.
fn good_facts() -> EntryFacts {
    let file = || OwnedFile { target: Some(stat(0o755)), parents: vec![Some(dir(0o755))] };
    EntryFacts {
        ids: IDS,
        codex_home: Some(dir(0o700)),
        resources_path: Some(dir(0o755)),
        codex_cli_path: file(),
        extension_host_path: file(),
        node_path: file(),
        node_repl_path: file(),
        browser_client_path: file(),
        node_module_dirs: Vec::new(),
        current_host: Some(CURRENT_HOST),
        configured_host: Some(CURRENT_HOST),
    }
}

/// Asks for a side panel's app server. `socket_after` is how often its socket
/// is looked at before it is there.
fn ensure(
    manager: &mut RuntimeManager,
    method: &str,
    client_id: &str,
    process_group: i32,
    socket_after: usize,
    log: &mut Vec<String>,
) -> Json {
    let constraints = object(vec![
        ("extensionBuildChannel", text("prod")),
        ("extensionId", text(EXTENSION)),
        ("extensionVersion", text("1.2.3")),
        ("nativeHostName", text("com.openai.codexextension")),
        ("requiredAppServerProtocolVersion", Json::unsigned(2)),
        ("requiredNativeHostProtocolVersion", Json::unsigned(2)),
    ]);
    let message = object(vec![
        ("id", Json::unsigned(9)),
        ("method", text(method)),
        (
            "params",
            object(vec![("constraints", constraints), ("clientId", text(client_id))]),
        ),
    ]);
    let mut looks = 0;
    let mut step = manager.handle_request(&message);
    loop {
        step = match step {
            Step::Reply(reply) => return reply,
            Step::ReadManifests(job) => {
                let manifest = RuntimeManifest {
                    schema_version: 2,
                    entries: vec![manifest_entry_json(
                        "current-host",
                        "/proc/self/exe",
                        "2026-07-10T00:00:00Z",
                    )],
                };
                manager.manifests_read(
                    job,
                    vec![ManifestRead::Missing, ManifestRead::Parsed(manifest)],
                    Some(CURRENT_HOST),
                )
            }
            Step::IdentifyHosts(job) => manager.hosts_identified(job, &vec![Some(CURRENT_HOST)]),
            Step::InspectEntry(job) => {
                let ip = IpAddress { bits: IpBits::V4(LOCALHOST), text: "127.0.0.1".to_string() };
                manager.entry_inspected(job, &good_facts(), Some(ip))
            }
            Step::LockProxy(work) => manager.proxy_locked(work, true),
            Step::PrepareRoot(purpose) => manager.root_prepared(purpose, Ok(())),
            Step::BindListener(job) => manager.listener_bound(job, Ok(())),
            Step::ConfigureListener(job) => {
                manager.listener_configured(job, ListenerSetup::Ready(localhost(52000)))
            }
            Step::StartProxy(job) => {
                log.push("proxy".to_string());
                manager.proxy_started(job, ProxyStart::Started)
            }
            Step::LockProcesses(work) => manager.processes_locked(work),
            Step::InspectProcess(group, path, job) => {
                assert_eq!(
                    (group, &path),
                    {
                        let process = manager.processes.get(client_id).unwrap();
                        (process.process_group, &process.socket_path)
                    }
                );
                manager.process_inspected(job, &ChildStatus::Running, &Some(socket()), &IDS)
            }
            Step::StopProcess(process, after) => {
                log.push(format!("stop {}", process.process_group));
                manager.process_stopped(after)
            }
            Step::PollProcesses(groups, job) => {
                let polls = groups
                    .iter()
                    .map(|group| {
                        let status = if *group < 0 {
                            ChildStatus::Exited("exit status: 0".to_string())
                        } else {
                            ChildStatus::Running
                        };
                        (*group, status)
                    })
                    .collect();
                manager.processes_polled(job, &polls)
            }
            Step::RemoveSockets(sockets, job) => {
                for path in sockets {
                    log.push(format!("unlink {}", String::from_utf8(path).unwrap()));
                }
                manager.sockets_removed(job)
            }
            Step::RemoveStaleSocket(job) => manager.stale_socket_removed(job, Removal::Missing),
            Step::SpawnServer(command, job) => {
                log.push(format!("spawn {} {}", command.program, command.args.join(" ")));
                assert_eq!(command.current_dir, "/tmp");
                assert_eq!(
                    command.envs[5],
                    ("CODEX_APP_SERVER_PROXY_PORT".to_string(), "52000".to_string())
                );
                manager.server_spawned(job, Ok(process_group))
            }
            Step::PollServer(job) => {
                assert_eq!(job.pause, looks > 0);
                looks += 1;
                let found = if looks > socket_after { Some(socket()) } else { None };
                manager.server_polled(job, false, &ChildStatus::Running, &found, &IDS)
            }
            Step::ReadConfig(job) => manager.config_read(job, &ClientRead::NotOpened, &None),
            other => panic!("unexpected step: {other:?}"),
        };
    }
}

const DEFAULT_SOCKET: &str = "a-37a8eec1ce19687d.sock";

#[test]
fn a_side_panel_is_served_once_and_told_again() {
    let mut manager = manager(Some(EXTENSION));
    let mut log = Vec::new();
    let reply = ensure(&mut manager, "codexRuntime/ensure", "default", 100, 2, &mut log);
    let token = manager.proxy.as_ref().unwrap().token.clone();
    assert_eq!(
        at(&reply, &["result", "localAppServerUrl"]),
        &text(&format!("ws://127.0.0.1:52000/?token={token}"))
    );
    assert_eq!(at(&reply, &["id"]), &Json::unsigned(9));
    assert_eq!(at(&reply, &["result", "connected"]), &Json::Bool(true));
    assert_eq!(at(&reply, &["result", "entryId"]), &text("current-host"));
    assert_eq!(at(&reply, &["result", "runtimeConfig", "platform"]), &text("linux"));
    assert_eq!(at(&reply, &["result", "runtimeConfig", "desktopAgentModeDefaults"]), &Json::Null);
    assert_eq!(
        log,
        vec![
            "proxy".to_string(),
            format!(
                "spawn /bin/true app-server --listen unix://{ROOT}/{DEFAULT_SOCKET} \
                 --analytics-default-enabled"
            ),
        ]
    );
    assert_eq!(
        manager.process_socket("default", &ChildStatus::Running).unwrap(),
        format!("{ROOT}/{DEFAULT_SOCKET}").into_bytes()
    );
    for row in &manager.processes.rows {
        assert_eq!(row.1.socket_path, client_socket_path(ROOT.as_bytes(), &row.0));
    }
    log.clear();
    let again = ensure(&mut manager, "codexRuntime/ensure", "default", 101, 0, &mut log);
    assert_eq!(again, reply);
    assert!(log.is_empty());

    ensure(&mut manager, "codexRuntime/restart", "default", 102, 0, &mut log);
    assert_eq!(log[0], "stop 100");
    assert_eq!(log.len(), 2);
    assert_eq!(manager.processes.get("default").unwrap().process_group, 102);
    assert_eq!(shut_down(&mut manager), 1);
    assert_eq!(shut_down(&mut manager), 0);
}

#[test]
fn servers_are_bounded_and_exited_ones_make_room() {
    let mut manager = manager(Some(EXTENSION));
    let mut log = Vec::new();
    for group in 1..=16 {
        let client = format!("panel-{group}");
        let reply = ensure(&mut manager, "codexRuntime/ensure", &client, group, 0, &mut log);
        assert!(reply.get("result").is_some());
    }
    let reply = ensure(&mut manager, "codexRuntime/ensure", "panel-17", 17, 0, &mut log);
    assert_eq!(
        at(&reply, &["error", "message"]),
        &text("Too many active Chrome sidepanel app-server processes")
    );
    assert_eq!(manager.processes.len(), 16);
    manager.processes.rows[3].1.process_group = -4;
    let left = manager.processes.rows[3].1.socket_path.clone();
    log.clear();
    let reply = ensure(&mut manager, "codexRuntime/ensure", "panel-17", 17, 0, &mut log);
    assert!(reply.get("result").is_some());
    assert_eq!(log[0], format!("unlink {}", String::from_utf8(left).unwrap()));
    assert!(manager.processes.get("panel-4").is_none());
    assert_eq!(manager.processes.len(), 16);
    assert_eq!(shut_down(&mut manager), 16);
}

#[test]
fn a_state_text_is_read_as_json() {
    let read = parse_json("{\"a\": [null, true, -3, 4, \"x\"], \"a\": {\"b\": 1.5}}").unwrap();
    assert_eq!(
        at(&read, &["a", "b"]),
        &Json::Number(JsonNumber::Float(1.5f64.to_bits()))
    );
    let list = parse_json("[null, true, -3, 4, \"x\\n\"]").unwrap();
    assert_eq!(
        list,
        Json::Array(vec![
            Json::Null,
            Json::Bool(true),
            Json::Number(JsonNumber::NegInt(-3)),
            Json::unsigned(4),
            text("x\n"),
        ])
    );
    assert!(parse_json("not-json").is_none());
}

#[test]
fn the_url_that_is_told_opens_the_proxy() {
    let mut manager = manager(Some(EXTENSION));
    let mut log = Vec::new();
    let reply = ensure(&mut manager, "codexRuntime/ensure", "default", 100, 0, &mut log);
    let url = at(&reply, &["result", "localAppServerUrl"]).as_str().unwrap();
    let token = manager.proxy.as_ref().unwrap().token.clone();
    let (_, query) = url.split_once("/?").unwrap();
    assert_eq!(parse_proxy_query(Some(query), &token), Ok("default".to_string()));
    let named = format!("{query}&clientId=panel-7");
    assert_eq!(parse_proxy_query(Some(&named), &token), Ok("panel-7".to_string()));
    assert!(parse_proxy_query(Some(query), &"0".repeat(64)).is_err());
}

#[test]
fn chunks_add_up_to_the_size_of_an_asset() {
    let mut manager = manager(None);
    let mut files = Vec::new();
    let created = run_asset(
        &mut manager,
        &mut files,
        "create",
        object(vec![("fileName", text("sum.bin"))]),
    )
    .unwrap();
    let asset_id = created.get("assetId").unwrap().copy();
    for data in ["YQ==", "YmM=", "ZGVm"] {
        run_asset(
            &mut manager,
            &mut files,
            "appendChunk",
            object(vec![("assetId", asset_id.copy()), ("dataBase64", text(data))]),
        )
        .unwrap();
    }
    assert_eq!(manager.assets.get(asset_id.as_str().unwrap()).unwrap().size, 6);
    assert_eq!(files[0].1, b"abcdef");
    let path = String::from_utf8(files[0].0.clone()).unwrap();
    assert_eq!(
        path,
        format!("{ROOT}/codex-tab-context-assets/{}-sum.bin", asset_id.as_str().unwrap())
    );
    let abort = object(vec![("assetId", asset_id.copy())]);
    assert!(run_asset(&mut manager, &mut files, "abort", abort).is_ok());
    assert!(files.is_empty());
}

#[test]
fn a_client_id_normalizes_to_itself() {
    for id in ["default", "A.b-c_d:9"] {
        assert_eq!(normalized_client_id(Some(&text(id))).unwrap(), id);
    }
    assert_eq!(normalized_client_id(Some(&Json::Null)).unwrap(), "default");
}

#[test]
fn messages_are_taken_as_they_were_read() {
    let manager = manager(Some(EXTENSION));
    let message = "{\"id\": [1, {\"deep\": null}], \"method\": \"codexRuntime/openLocalFile\", \
        \"params\": {\"path\": \"relative.txt\"}}";
    let value: serde_json::Value = serde_json::from_str(message).unwrap();
    assert!(is_runtime_value(value.clone()));
    assert!(!is_runtime_value(serde_json::Value::Null));
    match manager.handle_value(value) {
        Step::Reply(reply) => {
            assert_eq!(reply.get("id"), parse_json(message).unwrap().get("id"));
            assert_eq!(
                at(&reply, &["error", "message"]),
                &text("Local file path must be absolute")
            );
        }
        other => panic!("unexpected step: {other:?}"),
    }
}
