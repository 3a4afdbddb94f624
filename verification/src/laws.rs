//! What holds of the runtime as a whole.
use crate::admission::{
    admitted_client, query_item, random_text_is_a_query_token,
    token_alone_admits_the_default_client, token_and_client_id_admit_that_client,
    valid_client_id,
};
use crate::assets::TabContextAsset;
use crate::encode::random_text;
use crate::endpoint::{
    address_text, app_server_url, same_endpoint, url_carries_the_token, SocketAddress,
};
use crate::files::{ready_socket, FileStat, UserIds};
use crate::manager::RuntimeManager;
use crate::manifest::RuntimeEntry;
use crate::process::{same_service, ChildStatus, ManagedProcess};
use crate::proxying::proxy_worked;
use crate::requests::assets_worked;
use crate::serving::{process_judged, processes_of, processes_worked, started_for, stops_all};
use crate::steps::{AfterStop, AssetWork, BindJob, ProcessWork, ProxyWork, RunJob, Step};
use crate::table::lemma_rows;
use vstd::prelude::*;

verus! {

/// A shutdown stops the proxy if there is one and every app server there is,
/// and leaves no proxy, no app server and no asset. What is left of the
/// runtime directory is removed at its end.
pub proof fn a_shutdown_leaves_nothing(
    before: RuntimeManager,
    without_proxy: RuntimeManager,
    without_servers: RuntimeManager,
    after: RuntimeManager,
    alive: bool,
    first: Step,
    second: Step,
    third: Step,
)
    requires
        without_proxy.same_but_proxy(before),
        without_servers.same_but_processes(without_proxy),
        after.same_but_assets(without_servers),
        proxy_worked(before, ProxyWork::Shutdown, alive, first, without_proxy),
        processes_worked(without_proxy, ProcessWork::Shutdown, second, without_servers),
        assets_worked(without_servers, AssetWork::Shutdown, third, after),
    ensures
        first == (if before.proxy is Some {
            Step::StopProxy(ProxyWork::Shutdown)
        } else {
            Step::LockProcesses(ProcessWork::Shutdown)
        }),
        stops_all(second, processes_of(before.processes.rows@)),
        third matches Step::RemoveRoot(root) && root@ == before.runtime_root@,
        after.proxy is None,
        after.processes@ == Map::<Seq<char>, ManagedProcess>::empty(),
        after.assets@ == Map::<Seq<char>, TabContextAsset>::empty(),
{
}

/// A second shutdown finds nothing to stop, and changes nothing that the
/// runtime holds.
pub proof fn a_second_shutdown_stops_nothing(
    before: RuntimeManager,
    without_proxy: RuntimeManager,
    without_servers: RuntimeManager,
    after: RuntimeManager,
    alive: bool,
    first: Step,
    second: Step,
    third: Step,
)
    requires
        before.wf(),
        before.proxy is None,
        before.processes@ == Map::<Seq<char>, ManagedProcess>::empty(),
        before.assets@ == Map::<Seq<char>, TabContextAsset>::empty(),
        without_proxy.same_but_proxy(before),
        without_servers.same_but_processes(without_proxy),
        after.same_but_assets(without_servers),
        proxy_worked(before, ProxyWork::Shutdown, alive, first, without_proxy),
        processes_worked(without_proxy, ProcessWork::Shutdown, second, without_servers),
        assets_worked(without_servers, AssetWork::Shutdown, third, after),
    ensures
        first == Step::LockProcesses(ProcessWork::Shutdown),
        second == Step::LockAssets(AssetWork::Shutdown),
        after.proxy is None,
        after.processes@ == before.processes@,
        after.assets@ == before.assets@,
{
    lemma_rows(before.processes.rows@);
    assert(before.processes.rows@.len() == 0);
    assert(processes_of(before.processes.rows@).len() == 0);
}

/// The URL that a side panel is told opens the proxy to it: as it stands for
/// the client `default`, and with a client id added to it for that client.
pub proof fn the_url_admits_its_holder(
    address: SocketAddress,
    token: Seq<char>,
    client_id: Seq<char>,
)
    requires
        random_text(token, 32),
        valid_client_id(client_id),
    ensures
        app_server_url(address, token) == "ws://"@ + address_text(address) + "/?"@ + query_item(
            "token"@,
            token,
        ),
        admitted_client(query_item("token"@, token), token) == Some("default"@),
        admitted_client(
            query_item("token"@, token).push('&') + query_item("clientId"@, client_id),
            token,
        ) == Some(client_id),
{
    random_text_is_a_query_token(token, 32);
    url_carries_the_token(address, token);
    token_alone_admits_the_default_client(token, token);
    token_and_client_id_admit_that_client(token, client_id, token);
}

/// An app server that was started for an entry and an endpoint of the proxy
/// serves that entry through that endpoint, and through no other port.
pub proof fn a_started_server_serves_its_entry(
    process: ManagedProcess,
    entry: RuntimeEntry,
    proxy_port: u16,
    socket_path: Vec<u8>,
    process_group: i32,
    port: u16,
)
    requires
        started_for(process, entry, proxy_port, socket_path, process_group),
    ensures
        same_service(process, entry, port) <==> port == proxy_port,
{
}

/// Where the proxy runs on the address that is asked for and the client's app
/// server is a current one that is ready, a side panel that asks once more is
/// told of them again, and nothing changes.
pub proof fn ensuring_again_changes_nothing(
    before: RuntimeManager,
    bind: BindJob,
    at_proxy: Step,
    between: RuntimeManager,
    run: RunJob,
    status: ChildStatus,
    socket: Option<FileStat>,
    ids: UserIds,
    at_server: Step,
    after: RuntimeManager,
)
    requires
        before.proxy is Some,
        same_endpoint(before.proxy->Some_0.requested_address, bind.bind),
        before.processes@.contains_key(bind.serve.client_id@),
        same_service(
            before.processes@[bind.serve.client_id@],
            bind.serve.entry,
            before.proxy->Some_0.address.port,
        ),
        !bind.serve.restart,
        status is Running,
        ready_socket(socket, ids),
        proxy_worked(before, ProxyWork::Ensure(bind), true, at_proxy, between),
        at_proxy == Step::LockProcesses(ProcessWork::Ensure(run)),
        process_judged(between, run, status, socket, ids, at_server, after),
    ensures
        after == before,
        at_server == Step::ReadConfig(run),
        run.serve == bind.serve,
        run.address == before.proxy->Some_0.address,
        run.token@ == before.proxy->Some_0.token@,
{
}

/// A restart stops the client's app server, whatever state that is in, and
/// leaves those of other clients alone.
pub proof fn a_restart_stops_that_server_alone(
    before: RuntimeManager,
    run: RunJob,
    status: ChildStatus,
    socket: Option<FileStat>,
    ids: UserIds,
    step: Step,
    after: RuntimeManager,
    other: Seq<char>,
)
    requires
        run.serve.restart,
        before.processes@.contains_key(run.serve.client_id@),
        before.processes@.contains_key(other),
        other != run.serve.client_id@,
        process_judged(before, run, status, socket, ids, step, after),
    ensures
        step == Step::StopProcess(
            before.processes@[run.serve.client_id@],
            AfterStop::Replace(run),
        ),
        after.processes@.contains_key(other),
        after.processes@[other] == before.processes@[other],
        !after.processes@.contains_key(run.serve.client_id@),
{
}

} // verus!
