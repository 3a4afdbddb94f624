//! How a side panel's app server is brought up and told of, and how app
//! servers end, step by step.
use crate::config::{
    client_fault, config_view, file_defaults, hashes_of, runtime_config, ClientRead,
};
use crate::decode::text_view;
use crate::endpoint::{app_server_url, local_app_server_url, SocketAddress};
use crate::error::{fails_with, ErrorView, RuntimeError, RuntimeResult};
use crate::fields::contents;
use crate::files::{ready_socket, socket_is_ready, FileStat, UserIds};
use crate::json::{Json, JsonNumber, JsonView, Members};
use crate::manager::RuntimeManager;
use crate::manifest::{EntryView, RuntimeEntry};
use crate::process::{
    app_server_command, client_socket, inspection_error, inspection_failed, process_is_reusable, reuse,
    runs_app_server, ChildStatus, ManagedProcess, MAX_APP_SERVER_PROCESSES,
};
use crate::steps::{
    answer, answers, refuse, refuses, request_of, AfterStop, AssetWork, ProcessWork, Refusal,
    Removal, RootPurpose, RunJob, StartJob, Step, WaitJob,
};
use crate::table::{distinct_rows, lemma_rows, row_of, rows_view, Table};
use crate::text::cat;
use vstd::prelude::*;
use vstd::slice::slice_to_vec;

verus! {

/// Whether a process has exited, going by what the processes were asked.
pub open spec fn has_exited(polls: Seq<(i32, ChildStatus)>, process_group: i32) -> bool {
    exists|i: int|
        0 <= i < polls.len() && (#[trigger] polls[i]).0 == process_group && polls[i].1 is Exited
}

/// Whether a process has exited, going by what the processes were asked.
pub fn seen_exited(polls: &Vec<(i32, ChildStatus)>, process_group: i32) -> (r: bool)
    ensures
        r == has_exited(polls@, process_group),
{
    for i in 0..polls.len()
        invariant
            forall|j: int|
                0 <= j < i ==> !((#[trigger] polls@[j]).0 == process_group
                    && polls@[j].1 is Exited),
    {
        if polls[i].0 == process_group {
            match &polls[i].1 {
                ChildStatus::Exited(_) => return true,
                _ => {},
            }
        }
    }
    false
}

/// The app servers that have not exited.
pub open spec fn still_there(
    processes: Map<Seq<char>, ManagedProcess>,
    polls: Seq<(i32, ChildStatus)>,
) -> Map<Seq<char>, ManagedProcess> {
    processes.restrict(
        Set::new(
            |client: Seq<char>|
                processes.contains_key(client) && !has_exited(
                    polls,
                    processes[client].process_group,
                ),
        ),
    )
}

/// The sockets of the app servers that have exited.
pub open spec fn left_sockets(
    rows: Seq<(String, ManagedProcess)>,
    polls: Seq<(i32, ChildStatus)>,
) -> Seq<Seq<u8>>
    decreases rows.len(),
{
    if rows.len() == 0 {
        Seq::empty()
    } else {
        let before = left_sockets(rows.drop_last(), polls);
        if has_exited(polls, rows.last().1.process_group) {
            before.push(rows.last().1.socket_path@)
        } else {
            before
        }
    }
}

/// The process groups of app servers.
pub open spec fn groups_of(rows: Seq<(String, ManagedProcess)>) -> Seq<i32> {
    rows.map_values(|row: (String, ManagedProcess)| row.1.process_group)
}

/// The app servers in a table.
pub open spec fn processes_of(rows: Seq<(String, ManagedProcess)>) -> Seq<ManagedProcess> {
    rows.map_values(|row: (String, ManagedProcess)| row.1)
}

/// Whether the processes of all app servers are asked next.
pub open spec fn asks_all(step: Step, m: RuntimeManager, run: RunJob) -> bool {
    step matches Step::PollProcesses(groups, next) && next == run && groups@ == groups_of(
        m.processes.rows@,
    )
}

/// Whether app servers are stopped next, the last one first, and the assets
/// are dealt with when none is left.
pub open spec fn stops_all(step: Step, processes: Seq<ManagedProcess>) -> bool {
    if processes.len() == 0 {
        step == Step::LockAssets(AssetWork::Shutdown)
    } else {
        step matches Step::StopProcess(process, AfterStop::Shutdown(rest)) && rest@.push(process)
            == processes
    }
}

/// Takes the last of the app servers that are to be stopped.
fn stop_next_process(processes: Vec<ManagedProcess>) -> (r: Step)
    ensures
        stops_all(r, processes@),
{
    let mut rest = processes;
    match rest.pop() {
        Some(process) => {
            assert(rest@.push(process) =~= processes@);
            Step::StopProcess(process, AfterStop::Shutdown(rest))
        },
        None => Step::LockAssets(AssetWork::Shutdown),
    }
}

/// Whether a process is the one that was started for a job.
pub open spec fn started_for(
    process: ManagedProcess,
    entry: RuntimeEntry,
    proxy_port: u16,
    socket_path: Vec<u8>,
    process_group: i32,
) -> bool {
    &&& process.entry_id@ == entry.entry_id@
    &&& process.process_group == process_group
    &&& process.proxy_host@ == entry.proxy_host@
    &&& process.proxy_port == proxy_port
    &&& process.socket_path == socket_path
}

/// A starting app server that exited.
pub open spec fn died(status: Seq<char>) -> ErrorView {
    ErrorView::internal("Codex app-server exited before becoming ready ("@ + status + ")"@)
}

/// A starting app server whose time is over.
pub open spec fn start_timed_out() -> ErrorView {
    ErrorView::internal("Timed out waiting for Codex app-server to start"@)
}

/// Whether an app server is stopped next and the request then refused.
pub open spec fn stops_and_refuses(step: Step, job: WaitJob, e: ErrorView) -> bool {
    &&& step matches Step::StopProcess(process, AfterStop::Refuse(refusal))
    &&& process == job.process
    &&& refusal.id == job.run.serve.id
    &&& refusal.error@ == e
}

/// What the side panel is told of its app server.
pub open spec fn ensure_view(
    e: EntryView,
    address: SocketAddress,
    token: Seq<char>,
    config: JsonView,
) -> JsonView {
    JsonView::Object(
        map![
            "appServerProtocolVersion"@ => JsonView::Number(
                JsonNumber::PosInt(e.app_server_protocol_version as u64),
            ),
            "appVersion"@ => JsonView::Text(e.app_version),
            "channel"@ => JsonView::Text(e.channel),
            "cliVersion"@ => JsonView::Text(e.cli_version),
            "connected"@ => JsonView::Bool(true),
            "entryId"@ => JsonView::Text(e.entry_id),
            "localAppServerUrl"@ => JsonView::Text(app_server_url(address, token)),
            "nativeHostProtocolVersion"@ => JsonView::Number(
                JsonNumber::PosInt(e.native_host_protocol_version as u64),
            ),
            "nativeHostVersion"@ => JsonView::Text(e.native_host_version),
            "runtimeConfig"@ => config,
        ],
    )
}

/// What comes of touching the app servers while nothing else does.
pub open spec fn processes_worked(
    pre: RuntimeManager,
    work: ProcessWork,
    step: Step,
    post: RuntimeManager,
) -> bool {
    match work {
        ProcessWork::Ensure(run) => {
            let client = run.serve.client_id@;
            &&& post == pre
            &&& if pre.processes@.contains_key(client) {
                &&& step matches Step::InspectProcess(group, path, next)
                &&& next == run
                &&& group == pre.processes@[client].process_group
                &&& path@ == pre.processes@[client].socket_path@
            } else {
                asks_all(step, pre, run)
            }
        },
        ProcessWork::Shutdown => {
            &&& post.processes@ == Map::<Seq<char>, ManagedProcess>::empty()
            &&& stops_all(step, processes_of(pre.processes.rows@))
        },
    }
}

/// What comes of looking at the app server of a client: it is used again, or it
/// is stopped and another one takes its place.
pub open spec fn process_judged(
    pre: RuntimeManager,
    job: RunJob,
    status: ChildStatus,
    socket: Option<FileStat>,
    ids: UserIds,
    step: Step,
    post: RuntimeManager,
) -> bool {
    let client = job.serve.client_id@;
    if !pre.processes@.contains_key(client) {
        post == pre && asks_all(step, pre, job)
    } else {
        match reuse(
            pre.processes@[client],
            job.serve.entry,
            job.address.port,
            job.serve.restart,
            status,
            socket,
            ids,
        ) {
            Err(fault) => post == pre && refuses(step, job.serve.id@, fault),
            Ok(true) => post == pre && step == Step::ReadConfig(job),
            Ok(false) => {
                &&& post.processes@ == pre.processes@.remove(client)
                &&& step == Step::StopProcess(pre.processes@[client], AfterStop::Replace(job))
            },
        }
    }
}

impl RuntimeManager {
    /// Asks for the status of every app server.
    fn poll_processes(&self, run: RunJob) -> (r: Step)
        ensures
            asks_all(r, *self, run),
    {
        let mut groups: Vec<i32> = Vec::new();
        let ghost all = groups_of(self.processes.rows@);
        for i in 0..self.processes.rows.len()
            invariant
                all == groups_of(self.processes.rows@),
                groups@ == all.take(i as int),
        {
            groups.push(self.processes.rows[i].1.process_group);
            assert(all.take(i + 1) =~= all.take(i as int).push(all[i as int]));
        }
        assert(all.take(all.len() as int) =~= all);
        Step::PollProcesses(groups, run)
    }

    /// Nothing else touches the app servers now.
    pub fn processes_locked(&mut self, work: ProcessWork) -> (r: Step)
        requires
            old(self).wf(),
        ensures
            request_of(r) == work.id(),
            final(self).wf(),
            final(self).same_but_processes(*old(self)),
            processes_worked(*old(self), work, r, *final(self)),
    {
        match work {
            ProcessWork::Ensure(run) => {
                match self.processes.get(run.serve.client_id.as_str()) {
                    Some(process) => {
                        let path = slice_to_vec(process.socket_path.as_slice());
                        Step::InspectProcess(process.process_group, path, run)
                    },
                    None => self.poll_processes(run),
                }
            },
            ProcessWork::Shutdown => {
                let rows = self.processes.take_all();
                let ghost all = rows@;
                let mut processes: Vec<ManagedProcess> = Vec::new();
                for row in it: rows
                    invariant
                        it.seq() == all,
                        processes@ == processes_of(all).take(it.index()),
                {
                    processes.push(row.1);
                    assert(processes_of(all).take(it.index() + 1) =~= processes_of(all).take(
                        it.index(),
                    ).push(processes_of(all)[it.index()]));
                }
                assert(processes_of(all).take(all.len() as int) =~= processes_of(all));
                stop_next_process(processes)
            },
        }
    }

    /// The client's app server and its socket were looked at.
    pub fn process_inspected(
        &mut self,
        job: RunJob,
        status: &ChildStatus,
        socket: &Option<FileStat>,
        ids: &UserIds,
    ) -> (r: Step)
        requires
            old(self).wf(),
        ensures
            request_of(r) == Some(job.serve.id@),
            final(self).wf(),
            final(self).same_but_processes(*old(self)),
            process_judged(*old(self), job, *status, *socket, *ids, r, *final(self)),
    {
        match self.processes.get(job.serve.client_id.as_str()) {
            Some(process) => {
                match process_is_reusable(
                    process,
                    &job.serve.entry,
                    job.address.port,
                    job.serve.restart,
                    status,
                    socket,
                    ids,
                ) {
                    Ok(true) => return Step::ReadConfig(job),
                    Ok(false) => {},
                    Err(error) => return refuse(job.serve.id, error),
                }
            },
            None => return self.poll_processes(job),
        }
        match self.processes.remove(job.serve.client_id.as_str()) {
            Some(stale) => Step::StopProcess(stale, AfterStop::Replace(job)),
            None => self.poll_processes(job),
        }
    }

    /// An app server was stopped.
    pub fn process_stopped(&self, after: AfterStop) -> (r: Step)
        ensures
            request_of(r) == after.id(),
            match after {
                AfterStop::Replace(run) => asks_all(r, *self, run),
                AfterStop::Refuse(refusal) => refuses(r, refusal.id@, refusal.error@),
                AfterStop::Ready(run) => r == Step::ReadConfig(run),
                AfterStop::Shutdown(rest) => stops_all(r, rest@),
            },
    {
        match after {
            AfterStop::Replace(run) => self.poll_processes(run),
            AfterStop::Refuse(refusal) => refuse(refusal.id, refusal.error),
            AfterStop::Ready(run) => Step::ReadConfig(run),
            AfterStop::Shutdown(rest) => stop_next_process(rest),
        }
    }

    /// The processes of the app servers were asked; those that have exited are
    /// forgotten.
    pub fn processes_polled(&mut self, job: RunJob, polls: &Vec<(i32, ChildStatus)>) -> (r: Step)
        requires
            old(self).wf(),
        ensures
            request_of(r) == Some(job.serve.id@),
            final(self).wf(),
            final(self).same_but_processes(*old(self)),
            final(self).processes@ == still_there(old(self).processes@, polls@),
            r matches Step::RemoveSockets(sockets, next) && next == job && contents(sockets@)
                == left_sockets(old(self).processes.rows@, polls@),
    {
        proof {
            lemma_rows(self.processes.rows@);
        }
        let rows = self.processes.take_all();
        let ghost all = rows@;
        let mut kept: Table<ManagedProcess> = Table::new();
        let mut sockets: Vec<Vec<u8>> = Vec::new();
        assert(all.take(0).len() == 0);
        assert(contents(sockets@) =~= left_sockets(all.take(0), polls@));
        assert(kept@ =~= still_there(rows_view(all.take(0)), polls@));
        for row in it: rows
            invariant
                it.seq() == all,
                distinct_rows(all),
                kept.wf(),
                kept@.len() <= it.index(),
                kept@ == still_there(rows_view(all.take(it.index())), polls@),
                contents(sockets@) == left_sockets(all.take(it.index()), polls@),
        {
            let ghost i = it.index();
            let ghost seen = all.take(i);
            let ghost more = all.take(i + 1);
            proof {
                assert(more.drop_last() =~= seen);
                assert(more.last() == row);
                assert(distinct_rows(seen)) by {
                    assert forall|a: int, b: int| 0 <= a < b < seen.len() implies #[trigger] seen[a].0@
                        != #[trigger] seen[b].0@ by {
                        assert(all[a].0@ != all[b].0@);
                    }
                }
                lemma_rows(seen);
                assert(!rows_view(seen).contains_key(row.0@)) by {
                    if rows_view(seen).contains_key(row.0@) {
                        let a = choose|a: int| row_of(seen, row.0@, a);
                        assert(all[a].0@ != all[i].0@);
                    }
                }
            }
            let (client, process) = row;
            if seen_exited(polls, process.process_group) {
                let ghost before = contents(sockets@);
                sockets.push(process.socket_path);
                assert(contents(sockets@) =~= before.push(process.socket_path@));
                assert(still_there(rows_view(more), polls@) =~= still_there(
                    rows_view(seen),
                    polls@,
                ));
            } else {
                kept.insert(client, process);
                assert(still_there(rows_view(more), polls@) =~= still_there(
                    rows_view(seen),
                    polls@,
                ).insert(client@, process));
            }
        }
        assert(all.take(all.len() as int) =~= all);
        self.processes = kept;
        Step::RemoveSockets(sockets, job)
    }

    /// The sockets of app servers that have exited were removed.
    pub fn sockets_removed(&self, job: RunJob) -> (r: Step)
        requires
            self.wf(),
        ensures
            request_of(r) == Some(job.serve.id@),
            if self.processes@.len() >= MAX_APP_SERVER_PROCESSES {
                refuses(
                    r,
                    job.serve.id@,
                    ErrorView::internal("Too many active Chrome sidepanel app-server processes"@),
                )
            } else {
                r == Step::PrepareRoot(RootPurpose::AppServer(job))
            },
    {
        if self.processes.len() >= MAX_APP_SERVER_PROCESSES {
            refuse(
                job.serve.id,
                RuntimeError::internal("Too many active Chrome sidepanel app-server processes"),
            )
        } else {
            Step::PrepareRoot(RootPurpose::AppServer(job))
        }
    }

    /// A socket that might have been left behind was removed, or not.
    pub fn stale_socket_removed(&self, job: StartJob, removal: Removal) -> (r: Step)
        ensures
            request_of(r) == Some(job.run.serve.id@),
            match removal {
                Removal::Failed(error) => refuses(
                    r,
                    job.run.serve.id@,
                    ErrorView::internal(
                        "Failed to remove stale Codex app-server socket: "@ + error@,
                    ),
                ),
                _ => {
                    &&& r matches Step::SpawnServer(command, next)
                    &&& next == job
                    &&& runs_app_server(
                        command,
                        job.run.serve.entry,
                        job.run.serve.extension_id@,
                        job.run.address.port,
                        job.socket_path@,
                    )
                },
            },
    {
        match removal {
            Removal::Failed(error) => refuse(
                job.run.serve.id,
                RuntimeError::failure(
                    "Failed to remove stale Codex app-server socket: ",
                    error.as_str(),
                ),
            ),
            _ => {
                let command = app_server_command(
                    &job.run.serve.entry,
                    job.run.serve.extension_id.as_str(),
                    job.run.address.port,
                    job.socket_path.as_slice(),
                );
                Step::SpawnServer(command, job)
            },
        }
    }

    /// An app server was started in a process group of its own, or not.
    pub fn server_spawned(&self, job: StartJob, outcome: Result<i32, String>) -> (r: Step)
        ensures
            request_of(r) == Some(job.run.serve.id@),
            match outcome {
                Ok(process_group) => {
                    &&& r matches Step::PollServer(wait)
                    &&& wait.run == job.run
                    &&& !wait.pause
                    &&& started_for(
                        wait.process,
                        job.run.serve.entry,
                        job.run.address.port,
                        job.socket_path,
                        process_group,
                    )
                },
                Err(error) => refuses(
                    r,
                    job.run.serve.id@,
                    ErrorView::internal("Failed to start Codex app-server: "@ + error@),
                ),
            },
    {
        match outcome {
            Ok(process_group) => {
                let process = ManagedProcess {
                    entry_id: job.run.serve.entry.entry_id.clone(),
                    process_group,
                    proxy_host: job.run.serve.entry.proxy_host.clone(),
                    proxy_port: job.run.address.port,
                    socket_path: job.socket_path,
                };
                Step::PollServer(WaitJob { run: job.run, process, pause: false })
            },
            Err(error) => refuse(
                job.run.serve.id,
                RuntimeError::failure("Failed to start Codex app-server: ", error.as_str()),
            ),
        }
    }

    /// A starting app server and its socket were looked at. `expired` tells
    /// whether its time to start is over.
    pub fn server_polled(
        &mut self,
        job: WaitJob,
        expired: bool,
        status: &ChildStatus,
        socket: &Option<FileStat>,
        ids: &UserIds,
    ) -> (r: Step)
        requires
            old(self).wf(),
            old(self).has_room_for(job.run.serve.client_id@),
            old(self).has_socket_of(job.process, job.run.serve.client_id@),
        ensures
            request_of(r) == Some(job.run.serve.id@),
            final(self).wf(),
            final(self).same_but_processes(*old(self)),
            if expired {
                *final(self) == *old(self) && stops_and_refuses(r, job, start_timed_out())
            } else {
                match *status {
                    ChildStatus::Exited(text) => {
                        &&& *final(self) == *old(self)
                        &&& r matches Step::RemoveDeadSocket(path, refusal)
                        &&& path == job.process.socket_path
                        &&& refusal.id == job.run.serve.id
                        &&& refusal.error@ == died(text@)
                    },
                    ChildStatus::Failed(text) => *final(self) == *old(self) && stops_and_refuses(
                        r,
                        job,
                        inspection_failed(text@),
                    ),
                    ChildStatus::Running => if ready_socket(*socket, *ids) {
                        let client = job.run.serve.client_id@;
                        let processes = old(self).processes@;
                        &&& final(self).processes@ == processes.insert(client, job.process)
                        &&& r == (if processes.contains_key(client) {
                            Step::StopProcess(processes[client], AfterStop::Ready(job.run))
                        } else {
                            Step::ReadConfig(job.run)
                        })
                    } else {
                        &&& *final(self) == *old(self)
                        &&& r == Step::PollServer((WaitJob { pause: true, ..job }))
                    },
                }
            },
    {
        if expired {
            let error = RuntimeError::internal("Timed out waiting for Codex app-server to start");
            return Step::StopProcess(
                job.process,
                AfterStop::Refuse(Refusal { id: job.run.serve.id, error }),
            );
        }
        match status {
            ChildStatus::Exited(text) => {
                let what = cat("Codex app-server exited before becoming ready (", text.as_str());
                let error = RuntimeError::failure(what.as_str(), ")");
                Step::RemoveDeadSocket(
                    job.process.socket_path,
                    Refusal { id: job.run.serve.id, error },
                )
            },
            ChildStatus::Failed(text) => {
                let error = inspection_error(text.as_str());
                Step::StopProcess(
                    job.process,
                    AfterStop::Refuse(Refusal { id: job.run.serve.id, error }),
                )
            },
            ChildStatus::Running => if socket_is_ready(socket, ids) {
                let client = job.run.serve.client_id.clone();
                match self.processes.insert(client, job.process) {
                    Some(previous) => Step::StopProcess(previous, AfterStop::Ready(job.run)),
                    None => Step::ReadConfig(job.run),
                }
            } else {
                Step::PollServer(WaitJob { run: job.run, process: job.process, pause: true })
            },
        }
    }

    /// The socket of an app server that died was removed.
    pub fn dead_socket_removed(&self, refusal: Refusal) -> (r: Step)
        ensures
            request_of(r) == Some(refusal.id@),
            refuses(r, refusal.id@, refusal.error@),
    {
        refuse(refusal.id, refusal.error)
    }

    /// The browser client and the desktop app's state were read; the side
    /// panel is told of its app server.
    pub fn config_read(&self, job: RunJob, client: &ClientRead, state_text: &Option<String>) -> (r:
        Step)
        ensures
            request_of(r) == Some(job.serve.id@),
            match client_fault(job.serve.entry@, *client) {
                Some(fault) => refuses(r, job.serve.id@, fault),
                None => answers(
                    r,
                    job.serve.id@,
                    ensure_view(
                        job.serve.entry@,
                        job.address,
                        job.token@,
                        config_view(
                            job.serve.entry@,
                            hashes_of(job.serve.entry@, *client),
                            file_defaults(text_view(*state_text)),
                        ),
                    ),
                ),
            },
    {
        let entry = &job.serve.entry;
        let config = match runtime_config(entry, client, state_text) {
            Ok(config) => config,
            Err(error) => return refuse(job.serve.id, error),
        };
        let url = local_app_server_url(&job.address, job.token.as_str());
        let mut told = Members::new();
        told.put(
            "appServerProtocolVersion",
            Json::unsigned(entry.app_server_protocol_version as u64),
        );
        told.put("appVersion", Json::text(entry.app_version.as_str()));
        told.put("channel", Json::text(entry.channel.as_str()));
        told.put("cliVersion", Json::text(entry.cli_version.as_str()));
        told.put("connected", Json::Bool(true));
        told.put("entryId", Json::text(entry.entry_id.as_str()));
        told.put("localAppServerUrl", Json::text(url.as_str()));
        told.put(
            "nativeHostProtocolVersion",
            Json::unsigned(entry.native_host_protocol_version as u64),
        );
        told.put("nativeHostVersion", Json::text(entry.native_host_version.as_str()));
        told.put("runtimeConfig", config);
        answer(job.serve.id, told.object())
    }

    /// Where the app server of a client listens. `status` is that of its
    /// process.
    pub fn process_socket(&self, client_id: &str, status: &ChildStatus) -> (r: RuntimeResult<
        Vec<u8>,
    >)
        requires
            self.wf(),
        ensures
            if !self.processes@.contains_key(client_id@) {
                fails_with(
                    r,
                    ErrorView::internal("Codex app-server is not running for this sidepanel"@),
                )
            } else {
                match status {
                    ChildStatus::Failed(error) => fails_with(r, inspection_failed(error@)),
                    ChildStatus::Exited(_) => fails_with(
                        r,
                        ErrorView::internal(
                            "Codex app-server exited before the sidepanel connected"@,
                        ),
                    ),
                    ChildStatus::Running => r is Ok && r->Ok_0@
                        == self.processes@[client_id@].socket_path@ && r->Ok_0@ == client_socket(
                        self.runtime_root@,
                        client_id@,
                    ),
                }
            },
    {
        let process = match self.processes.get(client_id) {
            Some(process) => process,
            None => return Err(
                RuntimeError::internal("Codex app-server is not running for this sidepanel"),
            ),
        };
        match status {
            ChildStatus::Failed(error) => Err(inspection_error(error.as_str())),
            ChildStatus::Exited(_) => Err(
                RuntimeError::internal("Codex app-server exited before the sidepanel connected"),
            ),
            ChildStatus::Running => Ok(slice_to_vec(process.socket_path.as_slice())),
        }
    }
}

} // verus!
