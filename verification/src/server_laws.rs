//! What holds of app servers and of what is kept for them: which are used
//! again, which are forgotten, how they are stopped, and where they listen.
use crate::config::{agent_defaults, client_fault, file_defaults, hashes_of, ClientRead};
use crate::encode::{hex_text, is_hex_digit, random_text, sha256, short_hash_text};
use crate::endpoint::SocketAddress;
use crate::error::{error_reply, ErrorView, RuntimeResult};
use crate::fields::contents;
use crate::files::{FileStat, UserIds};
use crate::json::JsonView;
use crate::json_text::text_value;
use crate::manager::{ProxyServer, RuntimeManager};
use crate::manifest::{EntryView, RuntimeEntry};
use crate::paths::{lossy_text, path_parts};
use crate::process::{
    client_socket, process_is_reusable, reuse, stop_managed_process, stop_next, ChildStatus,
    ManagedProcess, StopAction, StopPhase,
    APP_SERVER_START_TIMEOUT_MS, APP_SERVER_STOP_TIMEOUT_MS, MAX_APP_SERVER_PROCESSES,
    START_POLL_MS, STOP_POLL_MS,
};
use crate::proxying::proxy_serves;
use crate::serving::{
    asks_all, groups_of, left_sockets, processes_of, still_there,
};
use crate::step_laws::{a_refusal_tells_of_its_fault, tells_failure};
use crate::steps::{
    AfterStop, AssetWork, ProcessWork, Refusal, Removal, RootPurpose, RunJob, StartJob, Step,
    WaitJob,
};
use crate::table::{lemma_rows, row_of};
use crate::text::decimal_text;
use crate::told_laws::{a_command_runs_in_the_home_of_its_entry, sets};
use crate::value_laws::{a_joined_path_goes_on, lemma_one_part};
use vstd::prelude::*;
use vstd::utf8::{encode_utf8, is_ascii_chars, is_ascii_chars_encode_utf8};

verus! {

/// An app server is used again where all of this holds, and only there: no
/// restart is asked for; it was started for the same entry, the same host and
/// the same port of the proxy; it runs; and its socket is one, of the user.
pub proof fn a_server_is_used_again_where_it_serves(
    process: ManagedProcess,
    entry: RuntimeEntry,
    proxy_port: u16,
    restart: bool,
    status: ChildStatus,
    socket: Option<FileStat>,
    ids: UserIds,
)
    ensures
        reuse(process, entry, proxy_port, restart, status, socket, ids) == Ok::<bool, ErrorView>(
            true,
        ) <==> {
            &&& !restart
            &&& process.entry_id@ == entry.entry_id@
            &&& process.proxy_host@ == entry.proxy_host@
            &&& process.proxy_port == proxy_port
            &&& status is Running
            &&& socket is Some
            &&& socket->Some_0.is_socket
            &&& socket->Some_0.uid == ids.euid
        },
        reuse(process, entry, proxy_port, restart, status, socket, ids) is Err <==> {
            &&& !restart
            &&& process.entry_id@ == entry.entry_id@
            &&& process.proxy_host@ == entry.proxy_host@
            &&& process.proxy_port == proxy_port
            &&& status is Failed
        },
{
}

/// The proxy is used again where there is one, it runs, and the address that it
/// was asked to listen on is the one that is asked for now.
pub proof fn a_proxy_is_used_again_where_it_listens(
    server: ProxyServer,
    alive: bool,
    bind: SocketAddress,
)
    ensures
        proxy_serves(Some(server), alive, bind) <==> alive && server.requested_address.ip.bits
            == bind.ip.bits && server.requested_address.port == bind.port,
        !proxy_serves(None, alive, bind),
{
}

/// An app server is forgotten where its process was seen to have exited, and
/// only there: one that runs, or could not be asked, stays as it was.
pub proof fn exited_servers_are_forgotten(
    processes: Map<Seq<char>, ManagedProcess>,
    polls: Seq<(i32, ChildStatus)>,
    client: Seq<char>,
)
    requires
        processes.contains_key(client),
    ensures
        still_there(processes, polls).contains_key(client) <==> forall|i: int|
            0 <= i < polls.len() && (#[trigger] polls[i]).0 == processes[client].process_group
                ==> polls[i].1 is Running || polls[i].1 is Failed,
        still_there(processes, polls).contains_key(client) ==> still_there(processes, polls)[client]
            == processes[client],
        forall|other: Seq<char>|
            #[trigger] still_there(processes, polls).contains_key(other) ==> processes.contains_key(
                other,
            ),
{
}

/// The sockets that are removed are those of exited servers: every one of them,
/// and no other.
pub proof fn sockets_of_exited_servers_are_removed(
    rows: Seq<(String, ManagedProcess)>,
    polls: Seq<(i32, ChildStatus)>,
    path: Seq<u8>,
)
    ensures
        left_sockets(rows, polls).contains(path) <==> exists|k: int, i: int|
            #![trigger rows[k], polls[i]]
            0 <= k < rows.len() && rows[k].1.socket_path@ == path && 0 <= i < polls.len()
                && polls[i].0 == rows[k].1.process_group && polls[i].1 is Exited,
    decreases rows.len(),
{
    if rows.len() > 0 {
        let rest = rows.drop_last();
        let last = rows.len() - 1;
        sockets_of_exited_servers_are_removed(rest, polls, path);
        let before = left_sockets(rest, polls);
        let all = left_sockets(rows, polls);
        if all.contains(path) {
            let n = choose|n: int| 0 <= n < all.len() && all[n] == path;
            if n < before.len() {
                assert(before[n] == path);
                let (k, i) = choose|k: int, i: int|
                    #![trigger rest[k], polls[i]]
                    0 <= k < rest.len() && rest[k].1.socket_path@ == path && 0 <= i < polls.len()
                        && polls[i].0 == rest[k].1.process_group && polls[i].1 is Exited;
                assert(rows[k] == rest[k]);
            } else {
                let i = choose|i: int|
                    0 <= i < polls.len() && (#[trigger] polls[i]).0 == rows[last].1.process_group
                        && polls[i].1 is Exited;
                assert(rows[last].1.socket_path@ == path && polls[i].1 is Exited);
            }
        }
        if exists|k: int, i: int|
            #![trigger rows[k], polls[i]]
            0 <= k < rows.len() && rows[k].1.socket_path@ == path && 0 <= i < polls.len()
                && polls[i].0 == rows[k].1.process_group && polls[i].1 is Exited {
            let (k, i) = choose|k: int, i: int|
                #![trigger rows[k], polls[i]]
                0 <= k < rows.len() && rows[k].1.socket_path@ == path && 0 <= i < polls.len()
                    && polls[i].0 == rows[k].1.process_group && polls[i].1 is Exited;
            if k < last {
                assert(rest[k] == rows[k]);
                assert(polls[i].1 is Exited);
                assert(before.contains(path));
                let n = choose|n: int| 0 <= n < before.len() && before[n] == path;
                assert(all[n] == path);
            } else {
                assert(all[all.len() - 1] == path);
            }
        }
    }
}

/// When all processes are asked, that of each client's app server is among
/// them.
pub proof fn every_server_is_asked(
    step: Step,
    m: RuntimeManager,
    run: RunJob,
    client: Seq<char>,
)
    requires
        m.wf(),
        asks_all(step, m, run),
        m.processes@.contains_key(client),
    ensures
        step matches Step::PollProcesses(groups, next) && next == run && groups@.contains(
            m.processes@[client].process_group,
        ),
{
    lemma_rows(m.processes.rows@);
    let rows = m.processes.rows@;
    let k = choose|k: int| row_of(rows, client, k);
    assert(groups_of(rows)[k] == rows[k].1.process_group);
}

/// What is done to an app server that is being stopped: it is asked to
/// terminate once, at first, if it runs; it is waited for while it runs and has
/// time; it is killed if it runs when its time is over; and in the end it is
/// waited for and its socket removed.
pub proof fn a_server_is_stopped_in_order(phase: StopPhase, exited: bool, expired: bool)
    ensures
        stop_next(phase, exited, expired).0 == StopAction::Terminate <==> phase == StopPhase::Begin
            && !exited,
        stop_next(phase, exited, expired).0 == StopAction::Pause <==> phase
            == StopPhase::Terminating && !exited && !expired,
        stop_next(phase, exited, expired).0 == StopAction::Look <==> phase == StopPhase::Terminating
            && (exited || expired),
        stop_next(phase, exited, expired).0 == StopAction::KillAndReap <==> phase
            == StopPhase::LastLook && !exited,
        stop_next(phase, exited, expired).0 == StopAction::Reap <==> phase != StopPhase::Terminating
            && exited,
        stop_next(phase, exited, expired).1 == StopPhase::Terminating <==> (phase
            == StopPhase::Begin || phase == StopPhase::Terminating && !expired) && !exited,
        stop_next(phase, exited, expired).1 != StopPhase::Begin,
{
}

/// The limits on app servers: how many there are, how long they have to start
/// and to stop, and how often they are looked at meanwhile.
pub proof fn servers_are_few_and_have_little_time(m: RuntimeManager)
    ensures
        m.wf() ==> m.processes@.len() <= 16,
        MAX_APP_SERVER_PROCESSES == 16,
        APP_SERVER_START_TIMEOUT_MS == 10 * 1000,
        APP_SERVER_STOP_TIMEOUT_MS == 2 * 1000,
        START_POLL_MS * 20 == 1000,
        STOP_POLL_MS * 40 == 1000,
{
}

/// A client's app server listens directly in the runtime directory, under a
/// name made of the short hash of the client's id.
pub proof fn a_server_listens_in_the_runtime_root(root: Seq<u8>, client_id: Seq<char>)
    requires
        random_text(short_hash_text(encode_utf8(client_id)), 8),
    ensures
        path_parts(client_socket(root, client_id)) == path_parts(root).push(
            encode_utf8("a-"@ + short_hash_text(encode_utf8(client_id)) + ".sock"@),
        ),
{
    reveal_strlit("a-");
    reveal_strlit(".sock");
    let hash = short_hash_text(encode_utf8(client_id));
    let name = "a-"@ + hash + ".sock"@;
    assert forall|i: int| 0 <= i < name.len() implies '\0' <= #[trigger] name[i] <= '\u{7f}'
        && name[i] != '/' by {
        if 2 <= i < 18 {
            assert(is_hex_digit(hash[i - 2]));
        }
    }
    assert(is_ascii_chars(name));
    is_ascii_chars_encode_utf8(name);
    let bytes = encode_utf8(name);
    assert forall|i: int| 0 <= i < bytes.len() implies bytes[i] != 47 by {
        assert(bytes[i] == name[i] as u8);
        assert(name[i] != '/');
    }
    a_joined_path_goes_on(root, bytes);
    lemma_one_part(bytes);
    assert(path_parts(root) + path_parts(bytes) =~= path_parts(root).push(bytes));
}

/// The agent modes are told as they are stored: those under the present name
/// before those under the former one, and an empty object where there are none.
/// There are none to tell where the state has not the part that they are
/// stored in.
pub proof fn agent_modes_are_told_as_they_are_stored(
    state: Map<Seq<char>, JsonView>,
    stored: Map<Seq<char>, JsonView>,
)
    requires
        state.contains_key("electron-persisted-atom-state"@),
        state["electron-persisted-atom-state"@] == JsonView::Object(stored),
    ensures
        agent_defaults(JsonView::Object(state)) matches Some(JsonView::Object(told)) && {
            &&& told["agentModesByHostId"@] == (if stored.contains_key("agentModesByHostId"@) {
                stored["agentModesByHostId"@]
            } else if stored.contains_key("agent-mode-by-host-id"@) {
                stored["agent-mode-by-host-id"@]
            } else {
                JsonView::Object(Map::empty())
            })
            &&& told["preferredNonFullAccessModesByHostId"@] == (if stored.contains_key(
                "preferredNonFullAccessModesByHostId"@,
            ) {
                stored["preferredNonFullAccessModesByHostId"@]
            } else if stored.contains_key("preferred-non-full-access-agent-mode-by-host-id"@) {
                stored["preferred-non-full-access-agent-mode-by-host-id"@]
            } else {
                JsonView::Object(Map::empty())
            })
            &&& told.dom() == set![
                "agentModesByHostId"@,
                "preferredNonFullAccessModesByHostId"@,
            ]
        },
{
    reveal_strlit("agentModesByHostId");
    reveal_strlit("preferredNonFullAccessModesByHostId");
    assert("agentModesByHostId"@.len() != "preferredNonFullAccessModesByHostId"@.len());
    let told = agent_defaults(JsonView::Object(state))->Some_0->Object_0;
    assert(told.dom() =~= set!["agentModesByHostId"@, "preferredNonFullAccessModesByHostId"@]);
}

/// No agent modes are told of a state without the part that they are stored in,
/// of a text that is not JSON, or where there is no text.
pub proof fn no_agent_modes_are_made_up(state: JsonView, text: Seq<char>)
    ensures
        !(state is Object) ==> agent_defaults(state) is None,
        state is Object && !state->Object_0.contains_key("electron-persisted-atom-state"@)
            ==> agent_defaults(state) is None,
        state is Object && !(state->Object_0["electron-persisted-atom-state"@] is Object)
            ==> agent_defaults(state) is None,
        file_defaults(None) is None,
        text_value(text) is None ==> file_defaults(Some(text)) is None,
        text_value(text) == Some(state) ==> file_defaults(Some(text)) == agent_defaults(state),
{
}

/// The digest that a side panel may trust is that of the browser client, where
/// the installation names one; one that it names but that cannot be read is a
/// fault, and one that it does not name is none.
pub proof fn the_browser_client_is_trusted_by_its_digest(
    e: EntryView,
    bytes: Vec<u8>,
    reason: String,
)
    ensures
        e.paths.browser_client_path is Some ==> hashes_of(e, ClientRead::Read(bytes)) == seq![
            hex_text(sha256(bytes@)),
        ] && client_fault(e, ClientRead::Read(bytes)) is None && client_fault(
            e,
            ClientRead::NotOpened,
        ) is Some,
        e.paths.browser_client_path is None ==> hashes_of(e, ClientRead::Read(bytes)).len() == 0
            && client_fault(e, ClientRead::NotOpened) is None && client_fault(
            e,
            ClientRead::Failed(reason),
        ) is None,
        e.paths.browser_client_path is Some ==> client_fault(e, ClientRead::NotOpened) == Some(
            ErrorView {
                code: 1,
                kind: Some("required_path_missing"@),
                message: "Codex app-server manifest entry is missing required path "@
                    + "browserClientPath"@,
            },
        ) && client_fault(e, ClientRead::Failed(reason)) == Some(
            ErrorView {
                code: 1,
                kind: Some("app_server_runtime_error"@),
                message: "Failed to hash Browser Use client: "@ + reason@,
            },
        ),
{
}

/// An app server is started where there are fewer than 16; where there are as
/// many, the caller is told so.
pub proof fn a_seventeenth_server_is_refused(m: RuntimeManager, job: RunJob, r: Step)
    requires
        call_ensures(RuntimeManager::sockets_removed, (&m, job), r),
    ensures
        m.processes@.len() < 16 ==> r == Step::PrepareRoot(RootPurpose::AppServer(job)),
        m.processes@.len() >= 16 ==> tells_failure(
            r,
            job.serve.id@,
            "Too many active Chrome sidepanel app-server processes"@,
        ),
{
    if m.processes@.len() >= 16 {
        a_refusal_tells_of_its_fault(
            r,
            job.serve.id@,
            ErrorView::internal("Too many active Chrome sidepanel app-server processes"@),
        );
    }
}

/// An app server is started where no socket is left in its place, whether one
/// was removed or there was none, for the extension and the port of the proxy
/// that its side panel goes through; otherwise the caller is told why.
pub proof fn a_server_is_started_where_its_place_is_free(
    m: RuntimeManager,
    job: StartJob,
    removal: Removal,
    r: Step,
)
    requires
        call_ensures(RuntimeManager::stale_socket_removed, (&m, job, removal), r),
    ensures
        r is SpawnServer <==> !(removal is Failed),
        r matches Step::SpawnServer(command, next) ==> {
            &&& next == job
            &&& command.program@ == job.run.serve.entry.paths.codex_cli_path@
            &&& command.current_dir@ == job.run.serve.entry.paths.codex_home@
            &&& sets(command, "CODEX_EXTENSION_ID"@, job.run.serve.extension_id@)
            &&& sets(
                command,
                "CODEX_APP_SERVER_PROXY_PORT"@,
                decimal_text(job.run.address.port as nat),
            )
            &&& command.args@[2]@ == "unix://"@ + lossy_text(job.socket_path@)
        },
        removal matches Removal::Failed(error) ==> tells_failure(
            r,
            job.run.serve.id@,
            "Failed to remove stale Codex app-server socket: "@ + error@,
        ),
{
    if let Removal::Failed(error) = removal {
        a_refusal_tells_of_its_fault(
            r,
            job.run.serve.id@,
            ErrorView::internal("Failed to remove stale Codex app-server socket: "@ + error@),
        );
    } else {
        a_command_runs_in_the_home_of_its_entry(
            job.run.serve.entry,
            job.run.serve.extension_id@,
            job.run.address.port,
            job.socket_path@,
            r->SpawnServer_0,
        );
    }
}

/// An app server that was started is waited for, at first without a pause; it
/// is known by its process group, its socket, and the entry and the port of the
/// proxy that it was started for. It would be used again for these once it is
/// ready.
pub proof fn a_started_server_is_waited_for(
    m: RuntimeManager,
    job: StartJob,
    outcome: Result<i32, String>,
    r: Step,
)
    requires
        call_ensures(RuntimeManager::server_spawned, (&m, job, outcome), r),
    ensures
        r is PollServer <==> outcome is Ok,
        r matches Step::PollServer(wait) ==> {
            &&& wait.run == job.run
            &&& !wait.pause
            &&& wait.process.process_group == outcome->Ok_0
            &&& wait.process.socket_path == job.socket_path
            &&& wait.process.entry_id@ == job.run.serve.entry.entry_id@
            &&& wait.process.proxy_host@ == job.run.serve.entry.proxy_host@
            &&& wait.process.proxy_port == job.run.address.port
        },
        outcome matches Err(error) ==> tells_failure(
            r,
            job.run.serve.id@,
            "Failed to start Codex app-server: "@ + error@,
        ),
{
    if let Err(error) = outcome {
        a_refusal_tells_of_its_fault(
            r,
            job.run.serve.id@,
            ErrorView::internal("Failed to start Codex app-server: "@ + error@),
        );
    }
}

/// A starting app server is the client's from the moment that it runs and its
/// socket is there, if its time is not over by then; one that the client had
/// before is stopped. Until then nothing changes: it is waited for, with
/// pauses, while it runs, and otherwise stopped, if it is there, and the caller
/// told. No other client's app server changes in any case.
pub proof fn a_starting_server_is_taken_once_it_is_ready(
    m: &mut RuntimeManager,
    job: WaitJob,
    expired: bool,
    status: ChildStatus,
    socket: Option<FileStat>,
    ids: UserIds,
    r: Step,
    client: Seq<char>,
)
    requires
        call_ensures(
            RuntimeManager::server_polled,
            (m, job, expired, &status, &socket, &ids),
            r,
        ),
    ensures
        client != job.run.serve.client_id@ ==> final(m).processes@.contains_key(client)
            == old(m).processes@.contains_key(client) && final(m).processes@[client]
            == old(m).processes@[client],
        !expired && status is Running && (socket matches Some(stat) && stat.is_socket && stat.uid
            == ids.euid) ==> {
            &&& final(m).processes@.contains_key(job.run.serve.client_id@)
            &&& final(m).processes@[job.run.serve.client_id@] == job.process
            &&& old(m).processes@.contains_key(job.run.serve.client_id@) ==> r
                == Step::StopProcess(
                old(m).processes@[job.run.serve.client_id@],
                AfterStop::Ready(job.run),
            )
            &&& !old(m).processes@.contains_key(job.run.serve.client_id@) ==> r == Step::ReadConfig(
                job.run,
            )
        },
        !(!expired && status is Running && (socket matches Some(stat) && stat.is_socket && stat.uid
            == ids.euid)) ==> final(m).processes == old(m).processes,
        r is PollServer <==> !expired && status is Running && !(socket matches Some(stat)
            && stat.is_socket && stat.uid == ids.euid),
        r matches Step::PollServer(next) ==> next.pause && next.run == job.run && next.process
            == job.process,
        r is RemoveDeadSocket <==> !expired && status is Exited,
        r matches Step::RemoveDeadSocket(path, refusal) ==> path == job.process.socket_path
            && refusal.id == job.run.serve.id && refusal.error@.message
            == "Codex app-server exited before becoming ready ("@ + status->Exited_0@ + ")"@,
        expired ==> (r matches Step::StopProcess(process, AfterStop::Refuse(refusal)) && process
            == job.process && refusal.id == job.run.serve.id && refusal.error@.message
            == "Timed out waiting for Codex app-server to start"@),
        !expired && status is Failed ==> (r matches Step::StopProcess(
            process,
            AfterStop::Refuse(refusal),
        ) && process == job.process && refusal.id == job.run.serve.id && refusal.error@.message
            == "Failed to inspect Codex app-server: "@ + status->Failed_0@),
{
}

/// A stopped app server makes way for what it was stopped for.
pub proof fn a_stopped_server_makes_way(m: RuntimeManager, after: AfterStop, r: Step)
    requires
        call_ensures(RuntimeManager::process_stopped, (&m, after), r),
    ensures
        after matches AfterStop::Replace(run) ==> (r matches Step::PollProcesses(groups, next)
            && next == run && groups@.len() == m.processes.rows@.len()),
        after matches AfterStop::Ready(run) ==> r == Step::ReadConfig(run),
        after matches AfterStop::Refuse(refusal) ==> (r matches Step::Reply(reply) && reply@
            == error_reply(refusal.id@, refusal.error@)),
        after matches AfterStop::Shutdown(rest) ==> {
            &&& rest@.len() == 0 <==> r == Step::LockAssets(AssetWork::Shutdown)
            &&& rest@.len() > 0 ==> (r matches Step::StopProcess(
                process,
                AfterStop::Shutdown(left),
            ) && left@.len() == rest@.len() - 1 && process == rest@.last() && forall|i: int|
                0 <= i < left@.len() ==> #[trigger] left@[i] == rest@[i])
        },
{
    if let AfterStop::Shutdown(rest) = after {
        if rest@.len() > 0 {
            let process = r->StopProcess_0;
            let left = r->StopProcess_1->Shutdown_0;
            assert(left@.push(process) == rest@);
            assert(rest@.last() == process);
            assert forall|i: int| 0 <= i < left@.len() implies #[trigger] left@[i] == rest@[i] by {
                assert(left@.push(process)[i] == left@[i]);
            }
        }
    }
}

/// The socket of a dead app server is removed before its caller is told.
pub proof fn a_dead_server_is_told_of(m: RuntimeManager, refusal: Refusal, r: Step)
    requires
        call_ensures(RuntimeManager::dead_socket_removed, (&m, refusal), r),
    ensures
        r matches Step::Reply(reply) && reply@ == error_reply(refusal.id@, refusal.error@),
{
}

/// A side panel is connected to the socket of its own app server where that
/// runs, and to no other's; otherwise it is told what is wrong.
pub proof fn a_side_panel_is_connected_to_its_own_server(
    m: RuntimeManager,
    client: &str,
    status: ChildStatus,
    r: RuntimeResult<Vec<u8>>,
)
    requires
        call_ensures(RuntimeManager::process_socket, (&m, client, &status), r),
    ensures
        r is Ok <==> m.processes@.contains_key(client@) && status is Running,
        r matches Ok(path) ==> path@ == m.processes@[client@].socket_path@ && path@
            == client_socket(m.runtime_root@, client@),
        r matches Err(error) ==> error@.message == (if !m.processes@.contains_key(client@) {
            "Codex app-server is not running for this sidepanel"@
        } else if status is Exited {
            "Codex app-server exited before the sidepanel connected"@
        } else {
            "Failed to inspect Codex app-server: "@ + status->Failed_0@
        }),
{
}

/// A client's app server is looked at where there is one, by its process group
/// and its socket, and otherwise all are asked whether they have exited.
pub proof fn a_client_is_served_by_its_own_server(
    m: &mut RuntimeManager,
    run: RunJob,
    step: Step,
)
    requires
        call_ensures(RuntimeManager::processes_locked, (m, ProcessWork::Ensure(run)), step),
    ensures
        *final(m) == *old(m),
        step is InspectProcess <==> old(m).processes@.contains_key(run.serve.client_id@),
        step is PollProcesses <==> !old(m).processes@.contains_key(run.serve.client_id@),
        step matches Step::InspectProcess(group, path, next) ==> next == run && group
            == old(m).processes@[run.serve.client_id@].process_group && path@
            == old(m).processes@[run.serve.client_id@].socket_path@,
{
}

/// An app server that serves is told of as it is, one that does not is stopped
/// and forgotten, and one that could not be asked is told of as a failure.
pub proof fn a_server_is_kept_or_replaced(
    m: &mut RuntimeManager,
    job: RunJob,
    status: ChildStatus,
    socket: Option<FileStat>,
    ids: UserIds,
    step: Step,
)
    requires
        call_ensures(RuntimeManager::process_inspected, (m, job, &status, &socket, &ids), step),
        old(m).processes@.contains_key(job.serve.client_id@),
        !job.serve.restart,
        old(m).processes@[job.serve.client_id@].entry_id@ == job.serve.entry.entry_id@,
        old(m).processes@[job.serve.client_id@].proxy_host@ == job.serve.entry.proxy_host@,
        old(m).processes@[job.serve.client_id@].proxy_port == job.address.port,
    ensures
        status matches ChildStatus::Failed(error) ==> *final(m) == *old(m) && tells_failure(
            step,
            job.serve.id@,
            "Failed to inspect Codex app-server: "@ + error@,
        ),
        status is Running && (socket matches Some(stat) && stat.is_socket && stat.uid == ids.euid)
            ==> *final(m) == *old(m) && step == Step::ReadConfig(job),
        status is Exited ==> !final(m).processes@.contains_key(job.serve.client_id@) && step
            == Step::StopProcess(
            old(m).processes@[job.serve.client_id@],
            AfterStop::Replace(job),
        ),
{
    if let ChildStatus::Failed(error) = status {
        a_refusal_tells_of_its_fault(
            step,
            job.serve.id@,
            ErrorView::internal("Failed to inspect Codex app-server: "@ + error@),
        );
    }
}

/// A shutdown stops every app server there is: each is stopped now or left to
/// be stopped after that.
pub proof fn every_server_is_stopped(
    m: &mut RuntimeManager,
    step: Step,
    client: Seq<char>,
)
    requires
        old(m).wf(),
        call_ensures(RuntimeManager::processes_locked, (m, ProcessWork::Shutdown), step),
        old(m).processes@.contains_key(client),
    ensures
        !final(m).processes@.contains_key(client),
        step matches Step::StopProcess(process, AfterStop::Shutdown(rest)) && (process
            == old(m).processes@[client] || rest@.contains(old(m).processes@[client])),
{
    lemma_rows(old(m).processes.rows@);
    let rows = old(m).processes.rows@;
    let all = processes_of(rows);
    let k = choose|k: int| row_of(rows, client, k);
    assert(all[k] == rows[k].1);
    let process = step->StopProcess_0;
    let rest = step->StopProcess_1->Shutdown_0;
    assert(rest@.push(process) == all);
    if k < rest@.len() {
        assert(rest@[k] == all[k]);
    }
}

/// Once all processes were asked, exited servers are forgotten and their sockets
/// removed, and all others stay as they are; then the same side panel goes on.
pub proof fn exited_servers_leave_no_sockets(
    m: &mut RuntimeManager,
    job: RunJob,
    polls: Vec<(i32, ChildStatus)>,
    step: Step,
    client: Seq<char>,
)
    requires
        old(m).wf(),
        call_ensures(RuntimeManager::processes_polled, (m, job, &polls), step),
        old(m).processes@.contains_key(client),
    ensures
        final(m).processes@.contains_key(client) <==> forall|i: int|
            0 <= i < polls@.len() && (#[trigger] polls@[i]).0
                == old(m).processes@[client].process_group ==> !(polls@[i].1 is Exited),
        final(m).processes@.contains_key(client) ==> final(m).processes@[client]
            == old(m).processes@[client],
        step matches Step::RemoveSockets(sockets, next) && next == job && (
        !final(m).processes@.contains_key(client) ==> exists|k: int|
            0 <= k < sockets@.len() && (#[trigger] sockets@[k])@
                == old(m).processes@[client].socket_path@) && forall|k: int|
            0 <= k < sockets@.len() ==> exists|gone: Seq<char>| #[trigger]
                old(m).processes@.contains_key(gone) && !final(m).processes@.contains_key(gone)
                    && (#[trigger] sockets@[k])@ == old(m).processes@[gone].socket_path@,
        final(m).proxy == old(m).proxy,
        final(m).assets == old(m).assets,
{
    exited_servers_are_forgotten(old(m).processes@, polls@, client);
    let rows = old(m).processes.rows@;
    lemma_rows(rows);
    let k = choose|k: int| row_of(rows, client, k);
    assert(rows[k].1 == old(m).processes@[client]);
    let path = rows[k].1.socket_path@;
    let sockets = step->RemoveSockets_0;
    let left = left_sockets(rows, polls@);
    assert(contents(sockets@) == left);
    assert forall|k: int| 0 <= k < sockets@.len() implies exists|gone: Seq<char>| #[trigger]
        old(m).processes@.contains_key(gone) && !final(m).processes@.contains_key(gone) && (
        #[trigger] sockets@[k])@ == old(m).processes@[gone].socket_path@ by {
        let removed = sockets@[k]@;
        assert(contents(sockets@)[k] == removed);
        assert(left.contains(removed));
        sockets_of_exited_servers_are_removed(rows, polls@, removed);
        let (at, i) = choose|at: int, i: int|
            #![trigger rows[at], polls@[i]]
            0 <= at < rows.len() && rows[at].1.socket_path@ == removed && 0 <= i < polls@.len()
                && polls@[i].0 == rows[at].1.process_group && polls@[i].1 is Exited;
        let gone = rows[at].0@;
        assert(old(m).processes@[gone] == rows[at].1);
        exited_servers_are_forgotten(old(m).processes@, polls@, gone);
        assert(polls@[i].1 is Exited);
        assert(old(m).processes@.contains_key(gone));
    }
    if !final(m).processes@.contains_key(client) {
        let i = choose|i: int|
            0 <= i < polls@.len() && (#[trigger] polls@[i]).0
                == old(m).processes@[client].process_group && polls@[i].1 is Exited;
        sockets_of_exited_servers_are_removed(rows, polls@, path);
        assert(polls@[i].0 == rows[k].1.process_group);
        assert(left.contains(path));
        let n = choose|n: int| 0 <= n < left.len() && left[n] == path;
        assert(contents(sockets@)[n] == sockets@[n]@);
    }
}

/// Whether an app server is used again is judged by what it was started for, by
/// its process and by its socket; a process that could not be asked is a fault
/// where all depends on it.
pub proof fn a_server_is_judged_by_what_it_serves(
    process: ManagedProcess,
    entry: RuntimeEntry,
    proxy_port: u16,
    restart: bool,
    status: ChildStatus,
    socket: Option<FileStat>,
    ids: UserIds,
    r: RuntimeResult<bool>,
)
    requires
        call_ensures(
            process_is_reusable,
            (&process, &entry, proxy_port, restart, &status, &socket, &ids),
            r,
        ),
    ensures
        r matches Ok(again) ==> (again <==> {
            &&& !restart
            &&& process.entry_id@ == entry.entry_id@
            &&& process.proxy_host@ == entry.proxy_host@
            &&& process.proxy_port == proxy_port
            &&& status is Running
            &&& socket matches Some(stat) && stat.is_socket && stat.uid == ids.euid
        }),
        r matches Err(error) ==> status is Failed && error@.message
            == "Failed to inspect Codex app-server: "@ + status->Failed_0@,
        restart ==> r is Ok,
        !restart && process.entry_id@ == entry.entry_id@ && process.proxy_host@ == entry.proxy_host@
            && process.proxy_port == proxy_port && status is Failed ==> r is Err,
{
}

/// An app server that is being stopped and never exits is asked to terminate
/// once, and killed at the third look after its time is over; one that exits is
/// never killed.
pub proof fn a_stubborn_server_is_killed(
    first: (StopAction, StopPhase),
    waiting: (StopAction, StopPhase),
    expired: (StopAction, StopPhase),
    last: (StopAction, StopPhase),
    exited: bool,
    phase: StopPhase,
    gone: (StopAction, StopPhase),
)
    requires
        call_ensures(stop_managed_process, (StopPhase::Begin, false, false), first),
        call_ensures(stop_managed_process, (first.1, false, false), waiting),
        call_ensures(stop_managed_process, (waiting.1, false, true), expired),
        call_ensures(stop_managed_process, (expired.1, false, true), last),
        call_ensures(stop_managed_process, (phase, true, exited), gone),
    ensures
        first.0 == StopAction::Terminate,
        waiting.0 == StopAction::Pause,
        expired.0 == StopAction::Look,
        last.0 == StopAction::KillAndReap,
        gone.0 != StopAction::Terminate,
        gone.0 != StopAction::KillAndReap,
        gone.0 != StopAction::Pause,
        phase != StopPhase::Terminating ==> gone.0 == StopAction::Reap,
{
}

/// Work on app servers changes nothing but the app servers.
pub proof fn locked_servers_change_alone(
    m: &mut RuntimeManager,
    work: ProcessWork,
    r: Step,
)
    requires
        call_ensures(RuntimeManager::processes_locked, (m, work), r),
    ensures
        final(m).extension_id == old(m).extension_id,
        final(m).manifest_paths_override == old(m).manifest_paths_override,
        final(m).assets == old(m).assets,
        final(m).proxy == old(m).proxy,
        final(m).runtime_root == old(m).runtime_root,
{
}

/// Judging an app server changes nothing but the app servers.
pub proof fn a_judged_server_changes_servers_alone(
    m: &mut RuntimeManager,
    job: RunJob,
    status: ChildStatus,
    socket: Option<FileStat>,
    ids: UserIds,
    r: Step,
)
    requires
        call_ensures(RuntimeManager::process_inspected, (m, job, &status, &socket, &ids), r),
    ensures
        final(m).extension_id == old(m).extension_id,
        final(m).manifest_paths_override == old(m).manifest_paths_override,
        final(m).assets == old(m).assets,
        final(m).proxy == old(m).proxy,
        final(m).runtime_root == old(m).runtime_root,
{
}

/// Asking processes changes nothing but the app servers.
pub proof fn polled_servers_change_alone(
    m: &mut RuntimeManager,
    job: RunJob,
    polls: Vec<(i32, ChildStatus)>,
    r: Step,
)
    requires
        call_ensures(RuntimeManager::processes_polled, (m, job, &polls), r),
    ensures
        final(m).extension_id == old(m).extension_id,
        final(m).manifest_paths_override == old(m).manifest_paths_override,
        final(m).assets == old(m).assets,
        final(m).proxy == old(m).proxy,
        final(m).runtime_root == old(m).runtime_root,
{
}

/// A starting app server changes nothing but the app servers.
pub proof fn a_starting_server_changes_servers_alone(
    m: &mut RuntimeManager,
    job: WaitJob,
    expired: bool,
    status: ChildStatus,
    socket: Option<FileStat>,
    ids: UserIds,
    r: Step,
)
    requires
        call_ensures(RuntimeManager::server_polled, (m, job, expired, &status, &socket, &ids), r),
    ensures
        final(m).extension_id == old(m).extension_id,
        final(m).manifest_paths_override == old(m).manifest_paths_override,
        final(m).assets == old(m).assets,
        final(m).proxy == old(m).proxy,
        final(m).runtime_root == old(m).runtime_root,
{
}

/// An app server that does not serve what is asked for is stopped and forgotten,
/// and no other changes: where a restart is asked for, where it was started for
/// another entry, host or port, where it has exited, and where its socket is
/// not the user's. A client without one has all processes asked.
pub proof fn a_server_that_does_not_serve_is_replaced(
    m: &mut RuntimeManager,
    job: RunJob,
    status: ChildStatus,
    socket: Option<FileStat>,
    ids: UserIds,
    r: Step,
    other: Seq<char>,
)
    requires
        call_ensures(RuntimeManager::process_inspected, (m, job, &status, &socket, &ids), r),
    ensures
        old(m).processes@.contains_key(job.serve.client_id@) && (job.serve.restart
            || old(m).processes@[job.serve.client_id@].entry_id@ != job.serve.entry.entry_id@
            || old(m).processes@[job.serve.client_id@].proxy_host@ != job.serve.entry.proxy_host@
            || old(m).processes@[job.serve.client_id@].proxy_port != job.address.port || status
            is Exited || (status is Running && !(socket matches Some(stat) && stat.is_socket
            && stat.uid == ids.euid))) ==> {
            &&& r == Step::StopProcess(
                old(m).processes@[job.serve.client_id@],
                AfterStop::Replace(job),
            )
            &&& !final(m).processes@.contains_key(job.serve.client_id@)
        },
        !old(m).processes@.contains_key(job.serve.client_id@) ==> (r matches Step::PollProcesses(
            groups,
            next,
        ) && next == job && groups@.len() == old(m).processes.rows@.len()),
        other != job.serve.client_id@ ==> final(m).processes@.contains_key(other)
            == old(m).processes@.contains_key(other) && final(m).processes@[other]
            == old(m).processes@[other],
{
}

} // verus!
