//! What the runtime is refused by its surroundings, step by step.
use chrome_runtime::config::ClientRead;
use chrome_runtime::endpoint::{IpAddress, IpBits, SocketAddress, LOCALHOST};
use chrome_runtime::files::{FileStat, UserIds};
use chrome_runtime::json::Json;
use chrome_runtime::manager::RuntimeManager;
use chrome_runtime::manifest::{RuntimeEntry, RuntimePaths};
use chrome_runtime::process::{client_socket_path, ChildStatus, ManagedProcess};
use chrome_runtime::steps::{
    AfterStop, AppendJob, AssetDirJob, AssetWork, BindJob, CreateJob, FinishJob, LaunchJob,
    ListenJob, ListenerSetup, OpenJob, ProcessWork, ProxyStart, ProxyWork, Removal, RemoveJob,
    RootPurpose, RunJob, ServeJob, StartJob, Step, WaitJob,
};

const IDS: UserIds = UserIds { euid: 1000, egid: 1000 };

fn manager() -> RuntimeManager {
    RuntimeManager::with_runtime_root(Some("ext".to_string()), b"/run/root".to_vec(), None)
}

fn broken<T>() -> Result<T, String> {
    Err("broken".to_string())
}

fn id() -> Json {
    Json::unsigned(5)
}

fn message(step: Step) -> String {
    match step {
        Step::Reply(reply) => {
            assert_eq!(reply.get("id"), Some(&id()));
            let error = reply.get("error").unwrap();
            error.get("message").unwrap().as_str().unwrap().to_string()
        }
        other => panic!("unexpected step: {other:?}"),
    }
}

fn granted(step: Step) -> Json {
    match step {
        Step::Reply(reply) => {
            assert_eq!(reply.get("id"), Some(&id()));
            reply.get("result").unwrap().copy()
        }
        other => panic!("unexpected step: {other:?}"),
    }
}

fn entry() -> RuntimeEntry {
    RuntimeEntry {
        schema_version: 2,
        app_server_protocol_version: 2,
        app_version: "1".to_string(),
        channel: "prod".to_string(),
        cli_version: "1".to_string(),
        entry_id: "entry".to_string(),
        extension_build_channels: Vec::new(),
        extension_ids: Vec::new(),
        install_id: "install".to_string(),
        native_host_names: Vec::new(),
        native_host_protocol_version: 2,
        native_host_version: "1".to_string(),
        paths: RuntimePaths {
            browser_client_path: Some("/c".to_string()),
            codex_cli_path: "/codex".to_string(),
            codex_home: "/home".to_string(),
            extension_host_path: "/host".to_string(),
            node_path: "/node".to_string(),
            node_module_dirs: Vec::new(),
            node_repl_path: None,
            resources_path: "/resources".to_string(),
        },
        proxy_host: "127.0.0.1".to_string(),
        proxy_port: 41000,
        updated_at: "2026".to_string(),
    }
}

fn serve() -> ServeJob {
    ServeJob {
        id: id(),
        extension_id: "ext".to_string(),
        client_id: "default".to_string(),
        restart: false,
        entry: entry(),
    }
}

fn address(port: u16) -> SocketAddress {
    SocketAddress {
        ip: IpAddress { bits: IpBits::V4(LOCALHOST), text: "127.0.0.1".to_string() },
        port,
    }
}

fn run() -> RunJob {
    RunJob { serve: serve(), address: address(52000), token: "t".to_string() }
}

fn listen(port: u16, first_error: Option<&str>) -> ListenJob {
    ListenJob {
        serve: serve(),
        requested: address(port),
        address: address(port),
        first_error: first_error.map(str::to_string),
    }
}

fn process(process_group: i32) -> ManagedProcess {
    ManagedProcess {
        entry_id: "entry".to_string(),
        process_group,
        proxy_host: "127.0.0.1".to_string(),
        proxy_port: 52000,
        socket_path: client_socket_path(b"/run/root", "default"),
    }
}

fn wait() -> WaitJob {
    WaitJob { run: run(), process: process(7), pause: true }
}

fn socket() -> Option<FileStat> {
    Some(FileStat {
        is_file: false,
        is_dir: false,
        is_symlink: false,
        is_socket: true,
        mode: 0o700,
        uid: 1000,
        gid: 1000,
    })
}

#[test]
fn assets_fail_with_the_reason() {
    let mut m = manager();
    let purpose = RootPurpose::Asset { id: id(), file_name: "a".to_string() };
    assert_eq!(
        message(m.root_prepared(purpose, broken())),
        "Failed to prepare Chrome runtime directory: broken"
    );
    let job = AssetDirJob { id: id(), file_name: "a".to_string(), path: Vec::new() };
    assert_eq!(
        message(m.asset_dir_prepared(job, broken())),
        "Failed to create Chrome tab context asset directory: broken"
    );
    assert_eq!(
        message(m.asset_id_drawn(id(), "a", broken())),
        "Failed to create Chrome tab context asset: broken"
    );
    match m.asset_id_drawn(id(), "a.txt", Ok("00ff".to_string())) {
        Step::CreateAssetFile(job) => {
            assert_eq!(job.path, b"/run/root/codex-tab-context-assets/00ff-a.txt");
            assert_eq!(
                message(m.asset_file_created(job, broken())),
                "Failed to create Chrome tab context asset: broken"
            );
        }
        other => panic!("unexpected step: {other:?}"),
    }
    assert_eq!(m.assets.len(), 0);
    let job = CreateJob { id: id(), asset_id: "x".to_string(), path: b"/p".to_vec() };
    granted(m.asset_file_created(job, Ok(())));
    let chunk = chrome_runtime::assets::AssetChunk {
        asset_id: "x".to_string(),
        data: b"abc".to_vec(),
    };
    match m.assets_locked(AssetWork::Append { id: id(), chunk }) {
        Step::WriteAsset(job) => {
            assert_eq!(job.next_size, 3);
            assert_eq!(
                message(m.asset_written(job, broken())),
                "Failed to write Chrome tab context asset: broken"
            );
        }
        other => panic!("unexpected step: {other:?}"),
    }
    assert_eq!(m.assets.get("x").unwrap().size, 0);
    let job = AppendJob {
        id: id(),
        chunk: chrome_runtime::assets::AssetChunk { asset_id: "x".to_string(), data: vec![1, 2] },
        next_size: 2,
    };
    assert_eq!(granted(m.asset_written(job, Ok(()))).get("ok"), Some(&Json::Bool(true)));
    assert_eq!(m.assets.get("x").unwrap().size, 2);
    let job = FinishJob { id: id(), asset_id: "x".to_string() };
    assert_eq!(
        message(m.asset_synced(job, broken())),
        "Failed to secure Chrome tab context asset: broken"
    );
    assert!(!m.assets.get("x").unwrap().finished);
    let job = FinishJob { id: id(), asset_id: "gone".to_string() };
    assert_eq!(
        message(m.asset_synced(job, Ok(()))),
        "Chrome tab context asset was not found"
    );
    let job = || RemoveJob { id: id(), asset_id: "x".to_string(), path: b"/p".to_vec() };
    assert_eq!(
        message(m.asset_file_removed(job(), Removal::Failed("broken".to_string()))),
        "Failed to remove Chrome tab context asset: broken"
    );
    assert_eq!(
        granted(m.asset_file_removed(job(), Removal::Missing)).get("ok"),
        Some(&Json::Bool(true))
    );
}

#[test]
fn greetings_and_files_are_answered() {
    let m = manager();
    let program = Some(FileStat { is_file: true, is_socket: false, mode: 0o755, ..socket().unwrap() });
    let hello = granted(m.opener_found(id(), &vec![None, program], "3.1"));
    assert_eq!(hello.get("manifestSchemaVersion"), Some(&Json::unsigned(2)));
    assert_eq!(hello.get("nativeHostProtocolVersion"), Some(&Json::unsigned(2)));
    assert_eq!(hello.get("nativeHostVersion"), Some(&Json::text("3.1")));
    assert_eq!(
        hello.get("supportedMethods"),
        Some(&Json::Array(vec![Json::text("codexRuntime/openLocalFile")]))
    );
    assert_eq!(
        hello.get("supportedProtocolVersions"),
        Some(&Json::Array(vec![Json::unsigned(2)]))
    );
    let bare = granted(m.opener_found(id(), &vec![None], "3.1"));
    assert_eq!(bare.get("supportedMethods"), Some(&Json::Array(vec![])));
    let job = || OpenJob { id: id(), path: "/a.txt".to_string() };
    assert_eq!(message(m.local_file_inspected(job(), &None)), "Local file does not exist");
    assert_eq!(
        message(m.local_file_opened(job(), broken())),
        "Failed to open local file: broken"
    );
    assert_eq!(granted(m.local_file_opened(job(), Ok(()))), Json::Object(vec![]));
}

#[test]
fn invocations_are_refused_before_anything_is_read() {
    let m = manager();
    let ask = |app: &str, host: u64, extension: &str, client: Json| {
        let constraints = Json::Array(vec![
            Json::text("prod"),
            Json::text(extension),
            Json::text(app),
            Json::text("host"),
            Json::unsigned(2),
            Json::unsigned(host),
        ]);
        let params = Json::Object(vec![
            ("constraints".to_string(), constraints),
            ("clientId".to_string(), client),
        ]);
        m.ensure(id(), &params, false)
    };
    assert_eq!(
        message(ask("1", 3, "ext", Json::Null)),
        "The Codex app and Chrome extension versions are incompatible."
    );
    assert_eq!(
        message(ask(" ", 2, "ext", Json::Null)),
        "Runtime constraints contain empty values"
    );
    assert_eq!(
        message(ask("1", 2, "other", Json::Null)),
        "No compatible Codex app-server entry was found"
    );
    assert_eq!(message(ask("1", 2, "ext", Json::Bool(true))), "Invalid clientId");
    assert_eq!(
        message(m.ensure(id(), &Json::Null, false)),
        "Missing required parameter: constraints"
    );
    assert!(matches!(ask("1", 2, "ext", Json::Null), Step::ReadManifests(_)));
}

#[test]
fn the_proxy_fails_with_the_reason() {
    let mut m = manager();
    let purpose = RootPurpose::Proxy(BindJob { serve: serve(), bind: address(41000) });
    assert_eq!(
        message(m.root_prepared(purpose, broken())),
        "Failed to prepare Chrome runtime directory: broken"
    );
    assert_eq!(
        message(m.listener_bound(listen(0, None), broken())),
        "Failed to bind Codex app-server proxy: broken"
    );
    match m.listener_bound(listen(41000, None), broken()) {
        Step::BindListener(job) => {
            assert_eq!((job.address.port, job.requested.port), (0, 41000));
            assert_eq!(
                message(m.listener_bound(job, Err("none free".to_string()))),
                "Failed to bind Codex app-server proxy to 127.0.0.1:41000 (broken) or an \
                 available fallback port (none free)"
            );
        }
        other => panic!("unexpected step: {other:?}"),
    }
    let failed = "broken".to_string();
    assert_eq!(
        message(m.listener_configured(listen(0, None), ListenerSetup::NotConfigured(failed.clone()))),
        "Failed to configure Codex app-server proxy: broken"
    );
    assert_eq!(
        message(m.listener_configured(listen(0, None), ListenerSetup::NoAddress(failed.clone()))),
        "Failed to read Codex app-server proxy address: broken"
    );
    assert_eq!(
        message(m.token_drawn(listen(0, None), address(52000), broken())),
        "Failed to create Codex app-server proxy token: broken"
    );
    let nobody = RuntimeManager::with_runtime_root(None, Vec::new(), None);
    assert_eq!(
        message(nobody.token_drawn(listen(0, None), address(52000), Ok("t".to_string()))),
        "No compatible Codex app-server entry was found"
    );
    let launch = || LaunchJob {
        serve: serve(),
        requested: address(0),
        address: address(52000),
        token: "t".to_string(),
        allowed_origin: "chrome-extension://ext".to_string(),
    };
    assert_eq!(
        message(m.proxy_started(launch(), ProxyStart::NoRuntime(failed.clone()))),
        "Failed to create Codex app-server proxy runtime: broken"
    );
    assert_eq!(
        message(m.proxy_started(launch(), ProxyStart::NoThread(failed))),
        "Failed to start Codex app-server proxy: broken"
    );
    assert!(m.proxy.is_none());
    assert!(matches!(
        m.proxy_started(launch(), ProxyStart::Started),
        Step::LockProcesses(ProcessWork::Ensure(_))
    ));
    let asked = |port: u16| ProxyWork::Ensure(BindJob { serve: serve(), bind: address(port) });
    assert!(matches!(m.proxy_locked(asked(0), true), Step::LockProcesses(_)));
    assert!(matches!(m.proxy_locked(asked(0), false), Step::StopProxy(_)));
    assert!(m.proxy.is_none());
    m.proxy_started(launch(), ProxyStart::Started);
    assert!(matches!(m.proxy_locked(asked(1), true), Step::StopProxy(_)));
    assert!(matches!(m.proxy_locked(asked(1), true), Step::PrepareRoot(RootPurpose::Proxy(_))));
}

#[test]
fn servers_fail_with_the_reason() {
    let mut m = manager();
    let start = || StartJob { run: run(), socket_path: b"/run/root/a.sock".to_vec() };
    assert_eq!(
        message(m.root_prepared(RootPurpose::AppServer(run()), broken())),
        "Failed to prepare Chrome runtime directory: broken"
    );
    let deep = RuntimeManager::with_runtime_root(None, vec![b'/'; 100], None);
    assert_eq!(
        message(deep.root_prepared(RootPurpose::AppServer(run()), Ok(()))),
        "Codex app-server Unix socket path is too long"
    );
    assert_eq!(
        message(m.stale_socket_removed(start(), Removal::Failed("broken".to_string()))),
        "Failed to remove stale Codex app-server socket: broken"
    );
    assert_eq!(
        message(m.server_spawned(start(), broken())),
        "Failed to start Codex app-server: broken"
    );
    let late = m.server_polled(wait(), true, &ChildStatus::Running, &socket(), &IDS);
    match late {
        Step::StopProcess(process, after) => {
            assert_eq!(process.process_group, 7);
            assert_eq!(
                message(m.process_stopped(after)),
                "Timed out waiting for Codex app-server to start"
            );
        }
        other => panic!("unexpected step: {other:?}"),
    }
    let dead = ChildStatus::Exited("exit status: 1".to_string());
    match m.server_polled(wait(), false, &dead, &socket(), &IDS) {
        Step::RemoveDeadSocket(path, refusal) => {
            assert_eq!(path, b"/run/root/a-37a8eec1ce19687d.sock");
            assert_eq!(
                message(m.dead_socket_removed(refusal)),
                "Codex app-server exited before becoming ready (exit status: 1)"
            );
        }
        other => panic!("unexpected step: {other:?}"),
    }
    let unknown = ChildStatus::Failed("broken".to_string());
    match m.server_polled(wait(), false, &unknown, &socket(), &IDS) {
        Step::StopProcess(_, after) => assert_eq!(
            message(m.process_stopped(after)),
            "Failed to inspect Codex app-server: broken"
        ),
        other => panic!("unexpected step: {other:?}"),
    }
    assert_eq!(m.processes.len(), 0);
    assert!(matches!(
        m.server_polled(wait(), false, &ChildStatus::Running, &None, &IDS),
        Step::PollServer(_)
    ));
    assert!(matches!(
        m.server_polled(wait(), false, &ChildStatus::Running, &socket(), &IDS),
        Step::ReadConfig(_)
    ));
    let mut other = wait();
    other.process = process(8);
    match m.server_polled(other, false, &ChildStatus::Running, &socket(), &IDS) {
        Step::StopProcess(previous, AfterStop::Ready(_)) => assert_eq!(previous.process_group, 7),
        step => panic!("unexpected step: {step:?}"),
    }
    assert_eq!(
        message(m.process_inspected(run(), &unknown, &socket(), &IDS)),
        "Failed to inspect Codex app-server: broken"
    );
    assert_eq!(m.processes.len(), 1);
    assert_eq!(
        message(m.config_read(run(), &ClientRead::Failed("broken".to_string()), &None)),
        "Failed to hash Browser Use client: broken"
    );
    let socket_of = |client: &str, status: &ChildStatus| {
        m.process_socket(client, status).unwrap_err().message
    };
    assert_eq!(
        socket_of("nobody", &ChildStatus::Running),
        "Codex app-server is not running for this sidepanel"
    );
    assert_eq!(
        socket_of("default", &dead),
        "Codex app-server exited before the sidepanel connected"
    );
    assert_eq!(socket_of("default", &unknown), "Failed to inspect Codex app-server: broken");
}
