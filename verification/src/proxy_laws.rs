//! What holds of the steps that bring the proxy up: from the manifests to an
//! entry, from the entry to an address, and from the address to a proxy that
//! listens.
use crate::assets::asset_dir;
use crate::encode::drawn_or_not;
use crate::endpoint::{
    address_text, proxy_host_fault, IpAddress, IpBits, SocketAddress,
};
use crate::error::{error_reply, ErrorView};
use crate::files::required_path;
use crate::manager::RuntimeManager;
use crate::process::client_socket;
use crate::proxying::{bind_failure, entry_settled, goes_on_with, launched};
use crate::selection::{
    candidates_of, chosen, entries_view, entry_fault, listed, manifests_fault, no_matching_install,
    own_host, EntryFacts, FileIdentity, ManifestRead,
};
use crate::selection_laws::the_latest_entry_of_the_host_is_chosen;
use crate::step_laws::{a_refusal_tells_of_its_fault, tells_failure, tells_fault};
use crate::steps::{
    BindJob, EnsureJob, HostsJob, LaunchJob, ListenJob, ListenerSetup, ProcessWork, ProxyStart,
    ProxyWork, RootPurpose, ServeJob, Step,
};
use vstd::prelude::*;

verus! {

/// Hosts are identified where the manifests and the running host are in order,
/// for the entries that meet the demand; a fault of the manifests is told before
/// that of the host.
pub proof fn hosts_are_identified_for_what_the_manifests_list(
    m: RuntimeManager,
    job: EnsureJob,
    reads: Vec<ManifestRead>,
    current: Option<FileIdentity>,
    r: Step,
)
    requires
        call_ensures(RuntimeManager::manifests_read, (&m, job, reads, current), r),
    ensures
        r is IdentifyHosts <==> manifests_fault(reads@) is None && current is Some,
        r matches Step::IdentifyHosts(next) ==> {
            &&& next.ensure == job
            &&& Some(next.current_host) == current
            &&& next.candidates@.len() == candidates_of(listed(reads@), job.constraints@).len()
            &&& forall|i: int|
                0 <= i < next.candidates@.len() ==> (#[trigger] next.candidates@[i])@
                    == candidates_of(listed(reads@), job.constraints@)[i]
        },
        manifests_fault(reads@) is None && current is None ==> tells_fault(
            r,
            job.id@,
            1,
            Some("required_path_missing"@),
            "Codex app-server manifest entry is missing required path "@ + "extensionHostPath"@,
        ),
{
    if r is IdentifyHosts {
        let next = r->IdentifyHosts_0;
        let views = entries_view(next.candidates@);
        assert forall|i: int| 0 <= i < next.candidates@.len() implies (
        #[trigger] next.candidates@[i])@ == candidates_of(listed(reads@), job.constraints@)[i] by {
            assert(views[i] == next.candidates@[i]@);
        }
    } else if manifests_fault(reads@) is None {
        a_refusal_tells_of_its_fault(
            r,
            job.id@,
            required_path("extensionHostPath"@),
        );
    }
}

/// A side panel goes on with an entry of the running host, if there is one, and
/// what it asked for goes with it; no other entry of that host was updated
/// later. If there is none, it is told so.
pub proof fn a_side_panel_goes_on_with_an_entry_of_the_host(
    m: RuntimeManager,
    job: HostsJob,
    hosts: Vec<Option<FileIdentity>>,
    r: Step,
    j: int,
    n: int,
)
    requires
        call_ensures(RuntimeManager::hosts_identified, (&m, job, &hosts), r),
    ensures
        r is InspectEntry <==> exists|j: int|
            0 <= j < job.candidates@.len() && j < hosts@.len() && (#[trigger] hosts@[j]) == Some(
                job.current_host,
            ),
        r matches Step::InspectEntry(serve) ==> {
            &&& serve.id == job.ensure.id
            &&& serve.client_id == job.ensure.client_id
            &&& serve.restart == job.ensure.restart
            &&& serve.extension_id == job.ensure.constraints.extension_id
            &&& exists|k: int|
                0 <= k < job.candidates@.len() && serve.entry == #[trigger] job.candidates@[k]
                    && k < hosts@.len() && hosts@[k] == Some(job.current_host)
        },
        r is InspectEntry && 0 <= j < job.candidates@.len() && j < hosts@.len() && hosts@[j]
            == Some(job.current_host) ==> {
            let date = r->InspectEntry_0.entry.updated_at@;
            let other = job.candidates@[j].updated_at@;
            &&& !(0 <= n < date.len() && n < other.len() && date.take(n) == other.take(n) && date[n]
                < other[n])
            &&& !(date.len() < other.len() && date == other.take(date.len() as int))
        },
        !(r is InspectEntry) ==> tells_fault(
            r,
            job.ensure.id@,
            1,
            Some("no_matching_codex_install"@),
            "No compatible Codex app-server entry was found"@,
        ),
{
    let views = entries_view(job.candidates@);
    assert(entry_settled(r, job, hosts@));
    if r is InspectEntry {
        let k = choose|k: int|
            #[trigger] chosen(views, hosts@, job.current_host, k)
                && goes_on_with(r, job.ensure, job.candidates@[k]);
        assert(hosts@[k] == Some(job.current_host));
        assert(views[k] == job.candidates@[k]@);
        if 0 <= j < job.candidates@.len() && j < hosts@.len() && hosts@[j] == Some(
            job.current_host,
        ) {
            assert(views[j] == job.candidates@[j]@);
            the_latest_entry_of_the_host_is_chosen(views, hosts@, job.current_host, k, j, n);
        }
    } else {
        a_refusal_tells_of_its_fault(r, job.ensure.id@, no_matching_install());
        assert forall|j: int| 0 <= j < job.candidates@.len() && j < hosts@.len() implies (
        #[trigger] hosts@[j]) != Some(job.current_host) by {
            assert(!own_host(hosts@, job.current_host, j));
        }
    }
}

/// An entry that is sound leads to the address that its proxy host and its port
/// say, which is one of the machine itself: `localhost` is 127.0.0.1, and an IP
/// address is itself. A fault of the entry is told before one of the host, and
/// a host that is no address apart from one of another machine.
pub proof fn an_entry_leads_to_its_address(
    m: RuntimeManager,
    job: ServeJob,
    facts: EntryFacts,
    parsed: Option<IpAddress>,
    r: Step,
)
    requires
        call_ensures(RuntimeManager::entry_inspected, (&m, job, &facts, parsed), r),
    ensures
        r is LockProxy <==> entry_fault(job.entry@, facts) is None && (job.entry.proxy_host@
            == "localhost"@ || (parsed matches Some(ip) && match ip.bits {
            IpBits::V4(bits) => bits as int / 0x100_0000 == 127,
            IpBits::V6(bits) => bits == 1,
        })),
        r matches Step::LockProxy(work) ==> (work matches ProxyWork::Ensure(next) && {
            &&& next.serve == job
            &&& next.bind.port == job.entry.proxy_port
            &&& job.entry.proxy_host@ == "localhost"@ ==> next.bind.ip.text@ == "127.0.0.1"@
                && next.bind.ip.bits == IpBits::V4(0x7f00_0001)
            &&& job.entry.proxy_host@ != "localhost"@ ==> next.bind.ip.bits == parsed->Some_0.bits
                && next.bind.ip.text@ == parsed->Some_0.text@
        }),
        entry_fault(job.entry@, facts) matches Some(fault) ==> (r matches Step::Reply(reply)
            && reply@ == error_reply(job.id@, fault)),
        entry_fault(job.entry@, facts) is None && job.entry.proxy_host@ != "localhost"@ && parsed
            is None ==> tells_fault(
            r,
            job.id@,
            1,
            Some("manifest_invalid"@),
            "Codex app-server proxy host is invalid"@,
        ),
        entry_fault(job.entry@, facts) is None && !(r is LockProxy) && parsed is Some
            ==> tells_fault(
            r,
            job.id@,
            1,
            Some("manifest_invalid"@),
            "Codex app-server proxy must use a loopback address"@,
        ),
{
    if entry_fault(job.entry@, facts) is None {
        if let Some(fault) = proxy_host_fault(job.entry.proxy_host@, parsed) {
            a_refusal_tells_of_its_fault(r, job.id@, fault);
        }
    }
}

/// The proxy is used again where it runs on the address that is asked for;
/// otherwise the runtime is without one, after the one that there is, if any,
/// is stopped. Either way the next step is for the same side panel.
pub proof fn the_proxy_is_kept_or_dropped(
    m: &mut RuntimeManager,
    job: BindJob,
    alive: bool,
    step: Step,
)
    requires
        call_ensures(RuntimeManager::proxy_locked, (m, ProxyWork::Ensure(job), alive), step),
    ensures
        step is LockProcesses <==> alive && (old(m).proxy matches Some(server)
            && server.requested_address.ip.bits == job.bind.ip.bits
            && server.requested_address.port == job.bind.port),
        step is LockProcesses ==> *final(m) == *old(m) && (step matches Step::LockProcesses(
            ProcessWork::Ensure(run),
        ) && run.serve == job.serve && run.address == old(m).proxy->Some_0.address && run.token@
            == old(m).proxy->Some_0.token@),
        !(step is LockProcesses) ==> final(m).proxy is None,
        step is StopProxy ==> old(m).proxy is Some && step == Step::StopProxy(
            ProxyWork::Ensure(job),
        ),
        old(m).proxy is None ==> step == Step::PrepareRoot(RootPurpose::Proxy(job)),
{
}

/// A proxy that was stopped makes way for the one that it was stopped for, or
/// for the end of the app servers.
pub proof fn a_stopped_proxy_makes_way(m: RuntimeManager, work: ProxyWork, r: Step)
    requires
        call_ensures(RuntimeManager::proxy_stopped, (&m, work), r),
    ensures
        work matches ProxyWork::Ensure(job) ==> r == Step::PrepareRoot(RootPurpose::Proxy(job)),
        r is LockProcesses <==> work is Shutdown,
        r matches Step::LockProcesses(next) ==> next is Shutdown,
{
}

/// Once the runtime directory is there, a new asset gets its directory below
/// it, a proxy is bound to the address that was asked for, and an app server
/// gets a socket below it if the socket's path has at most 107 bytes. Where the
/// directory could not be made, the caller is told why.
pub proof fn a_root_serves_its_purpose(
    m: RuntimeManager,
    purpose: RootPurpose,
    outcome: Result<(), String>,
    r: Step,
)
    requires
        call_ensures(RuntimeManager::root_prepared, (&m, purpose, outcome), r),
    ensures
        outcome matches Err(error) ==> tells_failure(
            r,
            purpose.id()@,
            "Failed to prepare Chrome runtime directory: "@ + error@,
        ),
        outcome is Ok ==> match purpose {
            RootPurpose::Asset { id, file_name } => r matches Step::PrepareAssetDir(job) && job.id
                == id && job.file_name == file_name && job.path@ == asset_dir(m.runtime_root@),
            RootPurpose::Proxy(bind) => r matches Step::BindListener(job) && job.serve == bind.serve
                && job.address == bind.bind && job.requested == bind.bind && job.first_error
                is None,
            RootPurpose::AppServer(run) => {
                &&& client_socket(m.runtime_root@, run.serve.client_id@).len() <= 107 ==> (
                r matches Step::RemoveStaleSocket(job) && job.run == run && job.socket_path@
                    == client_socket(m.runtime_root@, run.serve.client_id@))
                &&& client_socket(m.runtime_root@, run.serve.client_id@).len() > 107
                    ==> tells_failure(
                    r,
                    run.serve.id@,
                    "Codex app-server Unix socket path is too long"@,
                )
            },
        },
{
    if let Err(error) = outcome {
        a_refusal_tells_of_its_fault(
            r,
            purpose.id()@,
            ErrorView::internal("Failed to prepare Chrome runtime directory: "@ + error@),
        );
    } else if let RootPurpose::AppServer(run) = purpose {
        if client_socket(m.runtime_root@, run.serve.client_id@).len() > 107 {
            a_refusal_tells_of_its_fault(
                r,
                run.serve.id@,
                ErrorView::internal("Codex app-server Unix socket path is too long"@),
            );
        }
    }
}

/// Where a port cannot be had, any port of the same IP address is tried, once:
/// never after a failure before, never where any port was asked for, and for
/// the same address that was asked for. The second failure is told with the
/// first.
pub proof fn another_port_is_tried_once(
    m: RuntimeManager,
    job: ListenJob,
    outcome: Result<(), String>,
    r: Step,
)
    requires
        call_ensures(RuntimeManager::listener_bound, (&m, job, outcome), r),
    ensures
        r is ConfigureListener <==> outcome is Ok,
        r matches Step::ConfigureListener(next) ==> next == job,
        r is BindListener <==> outcome is Err && job.first_error is None && job.requested.port != 0,
        r matches Step::BindListener(next) ==> {
            &&& next.address.port == 0
            &&& next.address.ip == job.requested.ip
            &&& next.requested == job.requested
            &&& next.serve == job.serve
            &&& next.first_error == Some(outcome->Err_0)
        },
        outcome is Err && job.first_error is None && job.requested.port == 0 ==> tells_failure(
            r,
            job.serve.id@,
            "Failed to bind Codex app-server proxy: "@ + outcome->Err_0@,
        ),
        outcome is Err && job.first_error is Some ==> tells_failure(
            r,
            job.serve.id@,
            "Failed to bind Codex app-server proxy to "@ + address_text(
                job.requested,
            ) + " ("@ + job.first_error->Some_0@ + ") or an available fallback port ("@
                + outcome->Err_0@ + ")"@,
        ),
{
    if let Err(error) = outcome {
        match job.first_error {
            Some(first) => {
                a_refusal_tells_of_its_fault(
                    r,
                    job.serve.id@,
                    ErrorView::internal(bind_failure(job.requested, first@, error@)),
                );
            },
            None => {
                if job.requested.port == 0 {
                    a_refusal_tells_of_its_fault(
                        r,
                        job.serve.id@,
                        ErrorView::internal("Failed to bind Codex app-server proxy: "@ + error@),
                    );
                }
            },
        }
    }
}

/// A proxy is started on the address that is listened on, with the token that
/// was drawn, for pages of the runtime's own extension; what was asked for stays
/// known. Without a token, or without an extension, none is started.
pub proof fn a_proxy_is_started_for_its_extension(
    m: RuntimeManager,
    job: ListenJob,
    address: SocketAddress,
    random: Result<String, String>,
    r: Step,
)
    requires
        call_ensures(RuntimeManager::token_drawn, (&m, job, address, random), r),
    ensures
        r is StartProxy <==> random is Ok && m.extension_id is Some,
        r matches Step::StartProxy(launch) ==> {
            &&& launch.address == address
            &&& launch.requested == job.requested
            &&& launch.serve == job.serve
            &&& launch.token@ == random->Ok_0@
            &&& launch.allowed_origin@ == "chrome-extension://"@ + m.extension_id->Some_0@
        },
        random matches Err(error) ==> tells_failure(
            r,
            job.serve.id@,
            "Failed to create Codex app-server proxy token: "@ + error@,
        ),
        random is Ok && m.extension_id is None ==> tells_fault(
            r,
            job.serve.id@,
            1,
            Some("no_matching_codex_install"@),
            "No compatible Codex app-server entry was found"@,
        ),
{
    match random {
        Err(error) => {
            a_refusal_tells_of_its_fault(
                r,
                job.serve.id@,
                ErrorView::internal("Failed to create Codex app-server proxy token: "@ + error@),
            );
        },
        Ok(_) => {
            if m.extension_id is None {
                a_refusal_tells_of_its_fault(r, job.serve.id@, no_matching_install());
            }
        },
    }
}

/// A listener that could not be set up is told of, and by what went wrong; one
/// that could leads to a proxy with a token of 64 hexadecimal digits, or to a
/// reply.
pub proof fn a_listener_leads_to_a_proxy_with_a_token(
    m: RuntimeManager,
    job: ListenJob,
    setup: ListenerSetup,
    r: Step,
)
    requires
        call_ensures(RuntimeManager::listener_configured, (&m, job, setup), r),
    ensures
        setup matches ListenerSetup::NotConfigured(error) ==> tells_failure(
            r,
            job.serve.id@,
            "Failed to configure Codex app-server proxy: "@ + error@,
        ),
        setup matches ListenerSetup::NoAddress(error) ==> tells_failure(
            r,
            job.serve.id@,
            "Failed to read Codex app-server proxy address: "@ + error@,
        ),
        setup matches ListenerSetup::Ready(address) ==> r is Reply || (r matches Step::StartProxy(
            launch,
        ) && launch.address == address && launch.requested == job.requested && launch.serve
            == job.serve && launch.token@.len() == 64),
        setup is Ready && r is Reply ==> (m.extension_id is None && tells_fault(
            r,
            job.serve.id@,
            1,
            Some("no_matching_codex_install"@),
            "No compatible Codex app-server entry was found"@,
        )) || exists|reason: Seq<char>|
            tells_failure(
                r,
                job.serve.id@,
                #[trigger] ("Failed to create Codex app-server proxy token: "@ + reason),
            ),
{
    match setup {
        ListenerSetup::NotConfigured(error) => {
            a_refusal_tells_of_its_fault(
                r,
                job.serve.id@,
                ErrorView::internal("Failed to configure Codex app-server proxy: "@ + error@),
            );
        },
        ListenerSetup::NoAddress(error) => {
            a_refusal_tells_of_its_fault(
                r,
                job.serve.id@,
                ErrorView::internal("Failed to read Codex app-server proxy address: "@ + error@),
            );
        },
        ListenerSetup::Ready(address) => {
            let random = choose|random: Result<Seq<char>, Seq<char>>| #[trigger]
                drawn_or_not(random, 32) && launched(r, m.extension_id, job, address, random);
            match random {
                Err(reason) => {
                    let message = "Failed to create Codex app-server proxy token: "@ + reason;
                    a_refusal_tells_of_its_fault(r, job.serve.id@, ErrorView::internal(message));
                },
                Ok(_) => {
                    if m.extension_id is None {
                        a_refusal_tells_of_its_fault(r, job.serve.id@, no_matching_install());
                    }
                },
            }
        },
    }
}

/// A proxy that was started is the runtime's from then on, known by the address
/// it listens on, the one that was asked for and its token; and the side panel
/// goes on through it. One that could not be started changes nothing.
pub proof fn a_started_proxy_is_kept(
    m: &mut RuntimeManager,
    job: LaunchJob,
    start: ProxyStart,
    r: Step,
)
    requires
        call_ensures(RuntimeManager::proxy_started, (m, job, start), r),
    ensures
        start is Started ==> (final(m).proxy matches Some(server) && server.address == job.address
            && server.requested_address == job.requested && server.token@ == job.token@) && (
        r matches Step::LockProcesses(ProcessWork::Ensure(run)) && run.serve == job.serve
            && run.address == job.address && run.token@ == job.token@),
        !(start is Started) ==> final(m).proxy == old(m).proxy,
        start matches ProxyStart::NoRuntime(error) ==> tells_failure(
            r,
            job.serve.id@,
            "Failed to create Codex app-server proxy runtime: "@ + error@,
        ),
        start matches ProxyStart::NoThread(error) ==> tells_failure(
            r,
            job.serve.id@,
            "Failed to start Codex app-server proxy: "@ + error@,
        ),
        final(m).processes == old(m).processes,
        final(m).assets == old(m).assets,
        final(m).runtime_root == old(m).runtime_root,
        final(m).extension_id == old(m).extension_id,
{
    match start {
        ProxyStart::NoRuntime(error) => {
            a_refusal_tells_of_its_fault(
                r,
                job.serve.id@,
                ErrorView::internal("Failed to create Codex app-server proxy runtime: "@ + error@),
            );
        },
        ProxyStart::NoThread(error) => {
            a_refusal_tells_of_its_fault(
                r,
                job.serve.id@,
                ErrorView::internal("Failed to start Codex app-server proxy: "@ + error@),
            );
        },
        ProxyStart::Started => {},
    }
}

/// Work on the proxy changes nothing but the proxy.
pub proof fn a_locked_proxy_changes_alone(
    m: &mut RuntimeManager,
    work: ProxyWork,
    alive: bool,
    r: Step,
)
    requires
        call_ensures(RuntimeManager::proxy_locked, (m, work, alive), r),
    ensures
        final(m).assets == old(m).assets,
        final(m).extension_id == old(m).extension_id,
        final(m).manifest_paths_override == old(m).manifest_paths_override,
        final(m).processes == old(m).processes,
        final(m).runtime_root == old(m).runtime_root,
{
}

/// Starting the proxy changes nothing but the proxy.
pub proof fn a_started_proxy_changes_the_proxy_alone(
    m: &mut RuntimeManager,
    job: LaunchJob,
    start: ProxyStart,
    r: Step,
)
    requires
        call_ensures(RuntimeManager::proxy_started, (m, job, start), r),
    ensures
        final(m).assets == old(m).assets,
        final(m).extension_id == old(m).extension_id,
        final(m).manifest_paths_override == old(m).manifest_paths_override,
        final(m).processes == old(m).processes,
        final(m).runtime_root == old(m).runtime_root,
{
}

/// A shutdown leaves no proxy: one that there is is stopped, and then the app
/// servers are.
pub proof fn a_shutdown_leaves_no_proxy(m: &mut RuntimeManager, alive: bool, r: Step)
    requires
        call_ensures(RuntimeManager::proxy_locked, (m, ProxyWork::Shutdown, alive), r),
    ensures
        final(m).proxy is None,
        old(m).proxy is Some ==> r == Step::StopProxy(ProxyWork::Shutdown),
        old(m).proxy is None ==> r == Step::LockProcesses(ProcessWork::Shutdown),
{
}

} // verus!
