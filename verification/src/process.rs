//! App servers: how one is started, when a running one is used again, and how
//! one is stopped.
use crate::decode::texts_view;
use crate::encode::{short_hash, short_hash_text};
use crate::error::{fails_with, ErrorView, RuntimeError, RuntimeResult};
use crate::files::{ready_socket, socket_is_ready, FileStat, UserIds};
use crate::manifest::RuntimeEntry;
use crate::paths::{display_path, join_path, lossy_text};
use crate::roots::{below, socket_name};
use crate::text::{cat, decimal, decimal_text, same_text};
use vstd::prelude::*;
use vstd::string::*;
use vstd::utf8::encode_utf8;

verus! {

/// How many app servers run at a time.
pub const MAX_APP_SERVER_PROCESSES: usize = 16;

/// How long an app server may take to start, in milliseconds.
pub const APP_SERVER_START_TIMEOUT_MS: u64 = 10000;

/// How long an app server may take to stop, in milliseconds.
pub const APP_SERVER_STOP_TIMEOUT_MS: u64 = 2000;

/// How long to wait before a starting app server is looked at again.
pub const START_POLL_MS: u64 = 50;

/// How long to wait before a stopping app server is looked at again.
pub const STOP_POLL_MS: u64 = 25;

/// An app server that was started.
#[derive(Debug)]
pub struct ManagedProcess {
    pub entry_id: String,
    pub process_group: i32,
    pub proxy_host: String,
    pub proxy_port: u16,
    pub socket_path: Vec<u8>,
}

/// What the system says of a process. An exited one comes with its status, and
/// a failure to ask with its reason, as texts.
#[derive(Debug)]
pub enum ChildStatus {
    Running,
    Exited(String),
    Failed(String),
}

/// Whether an app server was started for an entry and the proxy's present
/// endpoint.
pub open spec fn same_service(process: ManagedProcess, entry: RuntimeEntry, proxy_port: u16) -> bool {
    &&& process.entry_id@ == entry.entry_id@
    &&& process.proxy_host@ == entry.proxy_host@
    &&& process.proxy_port == proxy_port
}

/// Whether an app server was started for an entry and the proxy's present
/// endpoint.
pub fn serves(process: &ManagedProcess, entry: &RuntimeEntry, proxy_port: u16) -> (r: bool)
    ensures
        r == same_service(*process, *entry, proxy_port),
{
    same_text(process.entry_id.as_str(), entry.entry_id.as_str()) && same_text(
        process.proxy_host.as_str(),
        entry.proxy_host.as_str(),
    ) && process.proxy_port == proxy_port
}

/// A process could not be asked for its status.
pub open spec fn inspection_failed(error: Seq<char>) -> ErrorView {
    ErrorView::internal("Failed to inspect Codex app-server: "@ + error)
}

/// A process could not be asked for its status.
pub fn inspection_error(error: &str) -> (r: RuntimeError)
    ensures
        r@ == inspection_failed(error@),
{
    RuntimeError::internal(cat("Failed to inspect Codex app-server: ", error).as_str())
}

/// Whether a running app server is used again: no restart is asked for, it was
/// started for the entry and the proxy's present endpoint, it still runs and
/// its socket is there. A process that cannot be asked whether it runs is a
/// fault.
pub open spec fn reuse(
    process: ManagedProcess,
    entry: RuntimeEntry,
    proxy_port: u16,
    restart: bool,
    status: ChildStatus,
    socket: Option<FileStat>,
    ids: UserIds,
) -> Result<bool, ErrorView> {
    if restart || !same_service(process, entry, proxy_port) {
        Ok(false)
    } else {
        match status {
            ChildStatus::Failed(error) => Err(inspection_failed(error@)),
            ChildStatus::Exited(_) => Ok(false),
            ChildStatus::Running => Ok(ready_socket(socket, ids)),
        }
    }
}

/// Whether a running app server is used again.
pub fn process_is_reusable(
    process: &ManagedProcess,
    entry: &RuntimeEntry,
    proxy_port: u16,
    restart: bool,
    status: &ChildStatus,
    socket: &Option<FileStat>,
    ids: &UserIds,
) -> (r: RuntimeResult<bool>)
    ensures
        match reuse(*process, *entry, proxy_port, restart, *status, *socket, *ids) {
            Ok(again) => r == Ok::<bool, RuntimeError>(again),
            Err(fault) => fails_with(r, fault),
        },
{
    if restart || !serves(process, entry, proxy_port) {
        return Ok(false);
    }
    match status {
        ChildStatus::Failed(error) => Err(inspection_error(error.as_str())),
        ChildStatus::Exited(_) => Ok(false),
        ChildStatus::Running => Ok(socket_is_ready(socket, ids)),
    }
}

/// Where the app server of a client listens.
pub open spec fn client_socket(root: Seq<u8>, client_id: Seq<char>) -> Seq<u8> {
    below(root, socket_name(short_hash_text(encode_utf8(client_id))))
}

/// Where the app server of a client listens.
pub fn client_socket_path(root: &[u8], client_id: &str) -> (r: Vec<u8>)
    ensures
        r@ == client_socket(root@, client_id@),
{
    let client_hash = short_hash(client_id.as_bytes());
    join_path(root, cat(cat("a-", client_hash.as_str()).as_str(), ".sock").as_str())
}

/// How an app server is run.
#[derive(Debug)]
pub struct AppServerCommand {
    pub program: String,
    pub args: Vec<String>,
    pub current_dir: String,
    pub envs: Vec<(String, String)>,
}

/// The names and values of environment variables.
pub open spec fn envs_view(envs: Seq<(String, String)>) -> Seq<(Seq<char>, Seq<char>)> {
    envs.map_values(|env: (String, String)| (env.0@, env.1@))
}

/// A variable that is set if there is a value for it.
pub open spec fn optional_env(name: Seq<char>, value: Option<String>) -> Seq<
    (Seq<char>, Seq<char>),
> {
    match value {
        Some(value) => seq![(name, value@)],
        None => Seq::empty(),
    }
}

/// The environment of an app server, on top of the host's own.
pub open spec fn server_envs(
    entry: RuntimeEntry,
    extension_id: Seq<char>,
    proxy_port: u16,
) -> Seq<(Seq<char>, Seq<char>)> {
    seq![
        ("CODEX_HOME"@, entry.paths.codex_home@),
        ("CODEX_CLI_PATH"@, entry.paths.codex_cli_path@),
        ("CODEX_EXTENSION_ID"@, extension_id),
        ("CODEX_BROWSER_USE_NODE_PATH"@, entry.paths.node_path@),
        ("CODEX_APP_SERVER_PROXY_HOST"@, entry.proxy_host@),
        ("CODEX_APP_SERVER_PROXY_PORT"@, decimal_text(proxy_port as nat)),
    ] + optional_env("CODEX_BROWSER_CLIENT_PATH"@, entry.paths.browser_client_path) + optional_env(
        "CODEX_NODE_REPL_PATH"@,
        entry.paths.node_repl_path,
    )
}

/// The arguments of an app server that listens on a socket.
pub open spec fn server_args(socket_path: Seq<u8>) -> Seq<Seq<char>> {
    seq![
        "app-server"@,
        "--listen"@,
        "unix://"@ + lossy_text(socket_path),
        "--analytics-default-enabled"@,
    ]
}

/// Whether a command runs the app server of an entry.
pub open spec fn runs_app_server(
    command: AppServerCommand,
    entry: RuntimeEntry,
    extension_id: Seq<char>,
    proxy_port: u16,
    socket_path: Seq<u8>,
) -> bool {
    &&& command.program@ == entry.paths.codex_cli_path@
    &&& texts_view(command.args@) == server_args(socket_path)
    &&& command.current_dir@ == entry.paths.codex_home@
    &&& envs_view(command.envs@) == server_envs(entry, extension_id, proxy_port)
}

/// The command that runs the app server of an entry.
pub fn app_server_command(
    entry: &RuntimeEntry,
    extension_id: &str,
    proxy_port: u16,
    socket_path: &[u8],
) -> (r: AppServerCommand)
    ensures
        runs_app_server(r, *entry, extension_id@, proxy_port, socket_path@),
{
    let paths = &entry.paths;
    let mut args: Vec<String> = Vec::new();
    args.push("app-server".to_owned());
    args.push("--listen".to_owned());
    args.push(cat("unix://", display_path(socket_path).as_str()));
    args.push("--analytics-default-enabled".to_owned());
    assert(texts_view(args@) =~= server_args(socket_path@));
    let mut envs: Vec<(String, String)> = Vec::new();
    envs.push(("CODEX_HOME".to_owned(), paths.codex_home.clone()));
    envs.push(("CODEX_CLI_PATH".to_owned(), paths.codex_cli_path.clone()));
    envs.push(("CODEX_EXTENSION_ID".to_owned(), extension_id.to_owned()));
    envs.push(("CODEX_BROWSER_USE_NODE_PATH".to_owned(), paths.node_path.clone()));
    envs.push(("CODEX_APP_SERVER_PROXY_HOST".to_owned(), entry.proxy_host.clone()));
    envs.push(("CODEX_APP_SERVER_PROXY_PORT".to_owned(), decimal(proxy_port as u128)));
    match &paths.browser_client_path {
        Some(path) => envs.push(("CODEX_BROWSER_CLIENT_PATH".to_owned(), path.clone())),
        None => {},
    }
    match &paths.node_repl_path {
        Some(path) => envs.push(("CODEX_NODE_REPL_PATH".to_owned(), path.clone())),
        None => {},
    }
    assert(envs_view(envs@) =~= server_envs(*entry, extension_id@, proxy_port));
    AppServerCommand {
        program: paths.codex_cli_path.clone(),
        args,
        current_dir: paths.codex_home.clone(),
        envs,
    }
}

/// How far the stopping of an app server has come.
#[derive(Clone, Copy, Debug, PartialEq, Eq)]
pub enum StopPhase {
    /// Nothing was done yet.
    Begin,
    /// It was asked to terminate.
    Terminating,
    /// The time to terminate is over.
    LastLook,
}

/// What to do next to an app server that is being stopped.
#[derive(Clone, Copy, Debug, PartialEq, Eq)]
pub enum StopAction {
    /// Ask its process group to terminate, and look again.
    Terminate,
    /// Wait, and look again.
    Pause,
    /// Look again at once.
    Look,
    /// Kill its process group, wait for it and remove its socket.
    KillAndReap,
    /// Wait for it and remove its socket.
    Reap,
}

/// What to do next to an app server that is being stopped, and the phase that
/// comes then: one that runs is asked to terminate, is given time, and is
/// killed if it still runs.
pub open spec fn stop_next(phase: StopPhase, exited: bool, expired: bool) -> (
    StopAction,
    StopPhase,
) {
    match phase {
        StopPhase::Begin => if exited {
            (StopAction::Reap, StopPhase::LastLook)
        } else {
            (StopAction::Terminate, StopPhase::Terminating)
        },
        StopPhase::Terminating => if expired || exited {
            (StopAction::Look, StopPhase::LastLook)
        } else {
            (StopAction::Pause, StopPhase::Terminating)
        },
        StopPhase::LastLook => if exited {
            (StopAction::Reap, StopPhase::LastLook)
        } else {
            (StopAction::KillAndReap, StopPhase::LastLook)
        },
    }
}

/// What to do next to an app server that is being stopped.
pub fn stop_managed_process(phase: StopPhase, exited: bool, expired: bool) -> (r: (
    StopAction,
    StopPhase,
))
    ensures
        r == stop_next(phase, exited, expired),
{
    match phase {
        StopPhase::Begin => if exited {
            (StopAction::Reap, StopPhase::LastLook)
        } else {
            (StopAction::Terminate, StopPhase::Terminating)
        },
        StopPhase::Terminating => if expired || exited {
            (StopAction::Look, StopPhase::LastLook)
        } else {
            (StopAction::Pause, StopPhase::Terminating)
        },
        StopPhase::LastLook => if exited {
            (StopAction::Reap, StopPhase::LastLook)
        } else {
            (StopAction::KillAndReap, StopPhase::LastLook)
        },
    }
}

/// An app server that has exited is sent no signal, and none is killed at
/// first sight or while its time to terminate lasts.
pub proof fn signals_go_to_running_servers(phase: StopPhase, exited: bool, expired: bool)
    ensures
        exited ==> stop_next(phase, exited, expired).0 != StopAction::Terminate && stop_next(
            phase,
            exited,
            expired,
        ).0 != StopAction::KillAndReap,
        stop_next(phase, exited, expired).0 == StopAction::KillAndReap ==> phase
            == StopPhase::LastLook,
        stop_next(phase, exited, expired).1 == StopPhase::LastLook ==> phase != StopPhase::Begin
            || exited,
        phase == StopPhase::Terminating && !expired && !exited ==> stop_next(
            phase,
            exited,
            expired,
        ).1 == StopPhase::Terminating,
{
}

/// An app server is used again only if no restart is asked for, it serves the
/// entry through the proxy's present endpoint, and it runs.
pub proof fn only_a_current_server_is_used_again(
    process: ManagedProcess,
    entry: RuntimeEntry,
    proxy_port: u16,
    restart: bool,
    status: ChildStatus,
    socket: Option<FileStat>,
    ids: UserIds,
)
    requires
        reuse(process, entry, proxy_port, restart, status, socket, ids) == Ok::<bool, ErrorView>(
            true,
        ),
    ensures
        !restart,
        process.proxy_host@ == entry.proxy_host@,
        process.proxy_port == proxy_port,
        process.entry_id@ == entry.entry_id@,
        status is Running,
        ready_socket(socket, ids),
{
}

/// A restart never uses an app server again, whatever state that is in.
pub proof fn a_restart_replaces_the_server(
    process: ManagedProcess,
    entry: RuntimeEntry,
    proxy_port: u16,
    status: ChildStatus,
    socket: Option<FileStat>,
    ids: UserIds,
)
    ensures
        reuse(process, entry, proxy_port, true, status, socket, ids) == Ok::<bool, ErrorView>(
            false,
        ),
{
}

} // verus!
