//! How an entry is selected for a side panel and the proxy is brought up for
//! it, step by step.
use crate::assets::{asset_dir, asset_dir_path};
use crate::encode::{drawn_or_not, random_hex};
use crate::endpoint::{
    address_text, display_address, is_same_address, proxy_address, proxy_bind_address,
    proxy_host_fault, same_endpoint, well_written, IpAddress, SocketAddress,
};
use crate::error::{ErrorView, RuntimeError};
use crate::files::{required_path, required_path_error};
use crate::manager::{ProxyServer, RuntimeManager};
use crate::manifest::RuntimeEntry;
use crate::process::{client_socket, client_socket_path};
use crate::roots::{fits_unix_socket, unix_socket_path_fits};
use crate::selection::{
    candidates_of, choose_entry, chosen, entries_view, entry_fault, listed, manifest_entries,
    manifests_fault, matching_entries, no_matching_install, no_matching_install_error, own_host,
    validate_runtime_entry, EntryFacts, FileIdentity, ManifestRead,
};
use crate::steps::{
    refuse, refuses, request_of, AssetDirJob, BindJob, EnsureJob, HostsJob, LaunchJob,
    ListenJob, ListenerSetup, ProcessWork, ProxyStart, ProxyWork, RootPurpose, RunJob, ServeJob,
    StartJob, Step,
};
use crate::text::cat;
use vstd::prelude::*;

verus! {

/// Whether a side panel goes on to be served by an entry.
pub open spec fn goes_on_with(step: Step, job: EnsureJob, entry: RuntimeEntry) -> bool {
    &&& step matches Step::InspectEntry(serve)
    &&& serve.id == job.id
    &&& serve.extension_id == job.constraints.extension_id
    &&& serve.client_id == job.client_id
    &&& serve.restart == job.restart
    &&& serve.entry == entry
}

/// Whether a side panel goes on with the entry to choose, or is refused where
/// there is none.
pub open spec fn entry_settled(
    step: Step,
    job: HostsJob,
    hosts: Seq<Option<FileIdentity>>,
) -> bool {
    ||| exists|k: int|
        #[trigger] chosen(entries_view(job.candidates@), hosts, job.current_host, k)
            && goes_on_with(step, job.ensure, job.candidates@[k])
    ||| {
        &&& forall|j: int|
            0 <= j < job.candidates@.len() ==> !#[trigger] own_host(hosts, job.current_host, j)
        &&& refuses(step, job.ensure.id@, no_matching_install())
    }
}

/// Whether the app server of a side panel comes next, reached through a proxy
/// at `address`.
pub open spec fn goes_on_through(
    step: Step,
    serve: ServeJob,
    address: SocketAddress,
    token: Seq<char>,
) -> bool {
    &&& step matches Step::LockProcesses(ProcessWork::Ensure(run))
    &&& run.serve == serve
    &&& run.address == address
    &&& run.token@ == token
}

/// Whether a proxy is used again: it still runs, and it was started for the
/// address that is asked for.
pub open spec fn proxy_serves(proxy: Option<ProxyServer>, alive: bool, bind: SocketAddress) -> bool {
    proxy is Some && alive && same_endpoint(proxy->Some_0.requested_address, bind)
}

/// The proxy is to be started with a token that was drawn, or none could be
/// drawn. A runtime without an extension starts none.
pub open spec fn launched(
    step: Step,
    extension_id: Option<String>,
    job: ListenJob,
    address: SocketAddress,
    random: Result<Seq<char>, Seq<char>>,
) -> bool {
    match random {
        Err(reason) => refuses(
            step,
            job.serve.id@,
            ErrorView::internal("Failed to create Codex app-server proxy token: "@ + reason),
        ),
        Ok(token) => match extension_id {
            None => refuses(step, job.serve.id@, no_matching_install()),
            Some(extension_id) => {
                &&& step matches Step::StartProxy(launch)
                &&& launch.serve == job.serve
                &&& launch.requested == job.requested
                &&& launch.address == address
                &&& launch.token@ == token
                &&& launch.allowed_origin@ == "chrome-extension://"@ + extension_id@
            },
        },
    }
}

/// Neither the address that was asked for nor another port of it can be
/// listened on.
pub open spec fn bind_failure(requested: SocketAddress, first: Seq<char>, second: Seq<char>) -> Seq<
    char,
> {
    "Failed to bind Codex app-server proxy to "@ + address_text(requested) + " ("@ + first
        + ") or an available fallback port ("@ + second + ")"@
}

/// What comes of touching the proxy while nothing else does.
pub open spec fn proxy_worked(
    pre: RuntimeManager,
    work: ProxyWork,
    alive: bool,
    step: Step,
    post: RuntimeManager,
) -> bool {
    match work {
        ProxyWork::Ensure(job) => if proxy_serves(pre.proxy, alive, job.bind) {
            let server = pre.proxy->Some_0;
            &&& post == pre
            &&& goes_on_through(step, job.serve, server.address, server.token@)
        } else {
            &&& post.proxy is None
            &&& step == (if pre.proxy is Some {
                Step::StopProxy(work)
            } else {
                Step::PrepareRoot(RootPurpose::Proxy(job))
            })
        },
        ProxyWork::Shutdown => {
            &&& post.proxy is None
            &&& step == (if pre.proxy is Some {
                Step::StopProxy(work)
            } else {
                Step::LockProcesses(ProcessWork::Shutdown)
            })
        },
    }
}

impl RuntimeManager {
    /// The manifests were read, and the running host was identified, or not.
    pub fn manifests_read(
        &self,
        job: EnsureJob,
        reads: Vec<ManifestRead>,
        current_host: Option<FileIdentity>,
    ) -> (r: Step)
        ensures
            request_of(r) == Some(job.id@),
            match (manifests_fault(reads@), current_host) {
                (Some(fault), _) => refuses(r, job.id@, fault),
                (None, None) => refuses(r, job.id@, required_path("extensionHostPath"@)),
                (None, Some(current)) => {
                    &&& r matches Step::IdentifyHosts(next)
                    &&& next.ensure == job
                    &&& next.current_host == current
                    &&& entries_view(next.candidates@) == candidates_of(
                        listed(reads@),
                        job.constraints@,
                    )
                },
            },
    {
        let values = match manifest_entries(reads) {
            Ok(values) => values,
            Err(error) => return refuse(job.id, error),
        };
        match current_host {
            Some(current_host) => {
                let candidates = matching_entries(&values, &job.constraints);
                Step::IdentifyHosts(HostsJob { ensure: job, candidates, current_host })
            },
            None => refuse(job.id, required_path_error("extensionHostPath")),
        }
    }

    /// The hosts of the candidates were identified, as far as they could be.
    pub fn hosts_identified(&self, job: HostsJob, hosts: &Vec<Option<FileIdentity>>) -> (r: Step)
        ensures
            request_of(r) == Some(job.ensure.id@),
            entry_settled(r, job, hosts@),
    {
        let ensure = job.ensure;
        match choose_entry(job.candidates, hosts, job.current_host) {
            Ok(entry) => Step::InspectEntry(
                ServeJob {
                    id: ensure.id,
                    extension_id: ensure.constraints.extension_id,
                    client_id: ensure.client_id,
                    restart: ensure.restart,
                    entry,
                },
            ),
            Err(error) => refuse(ensure.id, error),
        }
    }

    /// The paths of an entry were looked at. `proxy_host` is the IP address
    /// that the entry's proxy host is in its usual notation, if it is one.
    pub fn entry_inspected(
        &self,
        job: ServeJob,
        facts: &EntryFacts,
        proxy_host: Option<IpAddress>,
    ) -> (r: Step)
        ensures
            request_of(r) == Some(job.id@),
            match (
                entry_fault(job.entry@, *facts),
                proxy_host_fault(job.entry.proxy_host@, proxy_host),
            ) {
                (Some(fault), _) => refuses(r, job.id@, fault),
                (None, Some(fault)) => refuses(r, job.id@, fault),
                (None, None) => {
                    &&& r matches Step::LockProxy(ProxyWork::Ensure(next))
                    &&& next.serve == job
                    &&& proxy_address(next.bind, job.entry, proxy_host)
                    &&& (proxy_host matches Some(ip) ==> well_written(ip)) ==> well_written(
                        next.bind.ip,
                    )
                },
            },
    {
        match validate_runtime_entry(&job.entry, facts) {
            Ok(()) => {},
            Err(error) => return refuse(job.id, error),
        }
        match proxy_bind_address(&job.entry, proxy_host) {
            Ok(bind) => Step::LockProxy(ProxyWork::Ensure(BindJob { serve: job, bind })),
            Err(error) => refuse(job.id, error),
        }
    }

    /// Nothing else touches the proxy now. `alive` tells whether the proxy that
    /// there is, if there is one, still runs.
    pub fn proxy_locked(&mut self, work: ProxyWork, alive: bool) -> (r: Step)
        requires
            old(self).wf(),
        ensures
            request_of(r) == work.id(),
            final(self).wf(),
            final(self).same_but_proxy(*old(self)),
            proxy_worked(*old(self), work, alive, r, *final(self)),
    {
        let present = self.proxy.is_some();
        match work {
            ProxyWork::Ensure(job) => {
                match &self.proxy {
                    Some(server) => if alive && is_same_address(
                        &server.requested_address,
                        &job.bind,
                    ) {
                        return Step::LockProcesses(
                            ProcessWork::Ensure(
                                RunJob {
                                    serve: job.serve,
                                    address: server.address.copy(),
                                    token: server.token.clone(),
                                },
                            ),
                        );
                    },
                    None => {},
                }
                self.proxy = None;
                if present {
                    Step::StopProxy(ProxyWork::Ensure(job))
                } else {
                    Step::PrepareRoot(RootPurpose::Proxy(job))
                }
            },
            ProxyWork::Shutdown => {
                self.proxy = None;
                if present {
                    Step::StopProxy(ProxyWork::Shutdown)
                } else {
                    Step::LockProcesses(ProcessWork::Shutdown)
                }
            },
        }
    }

    /// The proxy was stopped.
    pub fn proxy_stopped(&self, work: ProxyWork) -> (r: Step)
        ensures
            request_of(r) == work.id(),
            r == (match work {
                ProxyWork::Ensure(job) => Step::PrepareRoot(RootPurpose::Proxy(job)),
                ProxyWork::Shutdown => Step::LockProcesses(ProcessWork::Shutdown),
            }),
    {
        match work {
            ProxyWork::Ensure(job) => Step::PrepareRoot(RootPurpose::Proxy(job)),
            ProxyWork::Shutdown => Step::LockProcesses(ProcessWork::Shutdown),
        }
    }

    /// The runtime directory was made, or not.
    pub fn root_prepared(&self, purpose: RootPurpose, outcome: Result<(), String>) -> (r: Step)
        ensures
            request_of(r) == Some(purpose.id()@),
            match outcome {
                Err(error) => refuses(
                    r,
                    purpose.id()@,
                    ErrorView::internal("Failed to prepare Chrome runtime directory: "@ + error@),
                ),
                Ok(_) => match purpose {
                    RootPurpose::Asset { id, file_name } => {
                        &&& r matches Step::PrepareAssetDir(job)
                        &&& job.id == id
                        &&& job.file_name == file_name
                        &&& job.path@ == asset_dir(self.runtime_root@)
                    },
                    RootPurpose::Proxy(job) => r == Step::BindListener(
                        ListenJob {
                            serve: job.serve,
                            requested: job.bind,
                            address: job.bind,
                            first_error: None,
                        },
                    ),
                    RootPurpose::AppServer(run) => {
                        let path = client_socket(self.runtime_root@, run.serve.client_id@);
                        if fits_unix_socket(path) {
                            r matches Step::RemoveStaleSocket(job) && job.run == run
                                && job.socket_path@ == path
                        } else {
                            refuses(
                                r,
                                run.serve.id@,
                                ErrorView::internal(
                                    "Codex app-server Unix socket path is too long"@,
                                ),
                            )
                        }
                    },
                },
            },
    {
        match outcome {
            Ok(()) => {},
            Err(error) => {
                let failure = RuntimeError::failure(
                    "Failed to prepare Chrome runtime directory: ",
                    error.as_str(),
                );
                let id = match purpose {
                    RootPurpose::Asset { id, .. } => id,
                    RootPurpose::Proxy(job) => job.serve.id,
                    RootPurpose::AppServer(run) => run.serve.id,
                };
                return refuse(id, failure);
            },
        }
        let root = self.runtime_root.as_slice();
        match purpose {
            RootPurpose::Asset { id, file_name } => Step::PrepareAssetDir(
                AssetDirJob { id, file_name, path: asset_dir_path(root) },
            ),
            RootPurpose::Proxy(job) => Step::BindListener(
                ListenJob {
                    serve: job.serve,
                    requested: job.bind.copy(),
                    address: job.bind,
                    first_error: None,
                },
            ),
            RootPurpose::AppServer(run) => {
                let socket_path = client_socket_path(root, run.serve.client_id.as_str());
                if unix_socket_path_fits(socket_path.as_slice()) {
                    Step::RemoveStaleSocket(StartJob { run, socket_path })
                } else {
                    refuse(
                        run.serve.id,
                        RuntimeError::internal("Codex app-server Unix socket path is too long"),
                    )
                }
            },
        }
    }

    /// A listener was bound, or not. Where the port that was asked for cannot
    /// be had, another one of the same address is tried, once.
    pub fn listener_bound(&self, job: ListenJob, outcome: Result<(), String>) -> (r: Step)
        ensures
            request_of(r) == Some(job.serve.id@),
            match (outcome, job.first_error) {
                (Ok(_), _) => r == Step::ConfigureListener(job),
                (Err(error), Some(first)) => refuses(
                    r,
                    job.serve.id@,
                    ErrorView::internal(bind_failure(job.requested, first@, error@)),
                ),
                (Err(error), None) => if job.requested.port != 0 {
                    r == Step::BindListener(
                        ListenJob {
                            address: SocketAddress { ip: job.requested.ip, port: 0 },
                            first_error: Some(error),
                            ..job
                        },
                    )
                } else {
                    refuses(
                        r,
                        job.serve.id@,
                        ErrorView::internal("Failed to bind Codex app-server proxy: "@ + error@),
                    )
                },
            },
    {
        let error = match outcome {
            Ok(()) => return Step::ConfigureListener(job),
            Err(error) => error,
        };
        match job.first_error {
            Some(first) => {
                let to = cat(
                    "Failed to bind Codex app-server proxy to ",
                    display_address(&job.requested).as_str(),
                );
                let why = cat(cat(to.as_str(), " (").as_str(), first.as_str());
                let or = cat(why.as_str(), ") or an available fallback port (");
                let message = cat(cat(or.as_str(), error.as_str()).as_str(), ")");
                refuse(job.serve.id, RuntimeError::internal(message.as_str()))
            },
            None => if job.requested.port != 0 {
                let address = SocketAddress { ip: job.requested.ip.copy(), port: 0 };
                Step::BindListener(
                    ListenJob {
                        serve: job.serve,
                        requested: job.requested,
                        address,
                        first_error: Some(error),
                    },
                )
            } else {
                refuse(
                    job.serve.id,
                    RuntimeError::failure(
                        "Failed to bind Codex app-server proxy: ",
                        error.as_str(),
                    ),
                )
            },
        }
    }

    /// A token was drawn for a new proxy, or could not be.
    pub fn token_drawn(
        &self,
        job: ListenJob,
        address: SocketAddress,
        random: Result<String, String>,
    ) -> (r: Step)
        ensures
            request_of(r) == Some(job.serve.id@),
            launched(
                r,
                self.extension_id,
                job,
                address,
                match random {
                    Ok(token) => Ok(token@),
                    Err(error) => Err(error@),
                },
            ),
    {
        let token = match random {
            Ok(token) => token,
            Err(error) => return refuse(
                job.serve.id,
                RuntimeError::failure(
                    "Failed to create Codex app-server proxy token: ",
                    error.as_str(),
                ),
            ),
        };
        match &self.extension_id {
            Some(extension_id) => Step::StartProxy(
                LaunchJob {
                    serve: job.serve,
                    requested: job.requested,
                    address,
                    token,
                    allowed_origin: cat("chrome-extension://", extension_id.as_str()),
                },
            ),
            None => refuse(job.serve.id, no_matching_install_error()),
        }
    }

    /// The listener was set up, or not.
    pub fn listener_configured(&self, job: ListenJob, setup: ListenerSetup) -> (r: Step)
        ensures
            request_of(r) == Some(job.serve.id@),
            match setup {
                ListenerSetup::NotConfigured(error) => refuses(
                    r,
                    job.serve.id@,
                    ErrorView::internal("Failed to configure Codex app-server proxy: "@ + error@),
                ),
                ListenerSetup::NoAddress(error) => refuses(
                    r,
                    job.serve.id@,
                    ErrorView::internal(
                        "Failed to read Codex app-server proxy address: "@ + error@,
                    ),
                ),
                ListenerSetup::Ready(address) => exists|random: Result<Seq<char>, Seq<char>>|
                    #[trigger]
                    drawn_or_not(random, 32) && launched(
                        r,
                        self.extension_id,
                        job,
                        address,
                        random,
                    ),
            },
    {
        match setup {
            ListenerSetup::NotConfigured(error) => refuse(
                job.serve.id,
                RuntimeError::failure(
                    "Failed to configure Codex app-server proxy: ",
                    error.as_str(),
                ),
            ),
            ListenerSetup::NoAddress(error) => refuse(
                job.serve.id,
                RuntimeError::failure(
                    "Failed to read Codex app-server proxy address: ",
                    error.as_str(),
                ),
            ),
            ListenerSetup::Ready(address) => {
                let random = random_hex(32);
                assert(drawn_or_not(
                    match random {
                        Ok(token) => Ok(token@),
                        Err(error) => Err(error@),
                    },
                    32,
                ));
                self.token_drawn(job, address, random)
            },
        }
    }

    /// The proxy was started, or not.
    pub fn proxy_started(&mut self, job: LaunchJob, start: ProxyStart) -> (r: Step)
        requires
            old(self).wf(),
        ensures
            request_of(r) == Some(job.serve.id@),
            final(self).wf(),
            final(self).same_but_proxy(*old(self)),
            match start {
                ProxyStart::NoRuntime(error) => {
                    &&& *final(self) == *old(self)
                    &&& refuses(
                        r,
                        job.serve.id@,
                        ErrorView::internal(
                            "Failed to create Codex app-server proxy runtime: "@ + error@,
                        ),
                    )
                },
                ProxyStart::NoThread(error) => {
                    &&& *final(self) == *old(self)
                    &&& refuses(
                        r,
                        job.serve.id@,
                        ErrorView::internal(
                            "Failed to start Codex app-server proxy: "@ + error@,
                        ),
                    )
                },
                ProxyStart::Started => {
                    &&& final(self).proxy matches Some(server)
                    &&& server.address == job.address
                    &&& server.requested_address == job.requested
                    &&& server.token@ == job.token@
                    &&& goes_on_through(r, job.serve, job.address, job.token@)
                },
            },
    {
        match start {
            ProxyStart::NoRuntime(error) => refuse(
                job.serve.id,
                RuntimeError::failure(
                    "Failed to create Codex app-server proxy runtime: ",
                    error.as_str(),
                ),
            ),
            ProxyStart::NoThread(error) => refuse(
                job.serve.id,
                RuntimeError::failure("Failed to start Codex app-server proxy: ", error.as_str()),
            ),
            ProxyStart::Started => {
                self.proxy = Some(
                    ProxyServer {
                        address: job.address.copy(),
                        requested_address: job.requested,
                        token: job.token.clone(),
                    },
                );
                Step::LockProcesses(
                    ProcessWork::Ensure(
                        RunJob { serve: job.serve, address: job.address, token: job.token },
                    ),
                )
            },
        }
    }
}

} // verus!
