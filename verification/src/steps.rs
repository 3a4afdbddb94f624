//! What the runtime does next in answer to a request: it replies, or some
//! outside work is done and its outcome handed back.
use crate::assets::AssetChunk;
use crate::endpoint::SocketAddress;
use crate::error::{error_reply, respond, result_reply, ErrorView, RuntimeError};
use crate::json::{Json, JsonView};
use crate::manifest::{RuntimeConstraints, RuntimeEntry};
use crate::process::{AppServerCommand, ManagedProcess};
use crate::selection::FileIdentity;
use vstd::prelude::*;

verus! {

/// A request that is refused once some cleaning up is done.
#[derive(Debug)]
pub struct Refusal {
    pub id: Json,
    pub error: RuntimeError,
}

/// A request for a new asset.
#[derive(Debug)]
pub struct AssetDirJob {
    pub id: Json,
    pub file_name: String,
    pub path: Vec<u8>,
}

/// What is done to the assets while nothing else is.
#[derive(Debug)]
pub enum AssetWork {
    Create { id: Json, file_name: String },
    Append { id: Json, chunk: AssetChunk },
    Finish { id: Json, asset_id: String },
    Remove { id: Json, asset_id: String },
    Shutdown,
}

impl AssetWork {
    /// The request that the assets are touched for, by its id.
    pub open spec fn id(self) -> Option<JsonView> {
        match self {
            AssetWork::Create { id, .. } => Some(id@),
            AssetWork::Append { id, .. } => Some(id@),
            AssetWork::Finish { id, .. } => Some(id@),
            AssetWork::Remove { id, .. } => Some(id@),
            AssetWork::Shutdown => None,
        }
    }
}

/// The file of a new asset is to be created.
#[derive(Debug)]
pub struct CreateJob {
    pub id: Json,
    pub asset_id: String,
    pub path: Vec<u8>,
}

/// A chunk is to be written to an asset.
#[derive(Debug)]
pub struct AppendJob {
    pub id: Json,
    pub chunk: AssetChunk,
    pub next_size: u64,
}

/// The file of an asset is to be brought to disk.
#[derive(Debug)]
pub struct FinishJob {
    pub id: Json,
    pub asset_id: String,
}

/// The file of an asset is to be removed.
#[derive(Debug)]
pub struct RemoveJob {
    pub id: Json,
    pub asset_id: String,
    pub path: Vec<u8>,
}

/// A local file is to be opened.
#[derive(Debug)]
pub struct OpenJob {
    pub id: Json,
    pub path: String,
}

/// What came of removing a file.
#[derive(Debug)]
pub enum Removal {
    Removed,
    Missing,
    Failed(String),
}

/// A side panel asks for its app server.
#[derive(Debug)]
pub struct EnsureJob {
    pub id: Json,
    pub constraints: RuntimeConstraints,
    pub client_id: String,
    pub restart: bool,
}

/// Entries meet the demands; their hosts are to be identified.
#[derive(Debug)]
pub struct HostsJob {
    pub ensure: EnsureJob,
    pub candidates: Vec<RuntimeEntry>,
    pub current_host: FileIdentity,
}

/// A side panel is to be served by an entry.
#[derive(Debug)]
pub struct ServeJob {
    pub id: Json,
    pub extension_id: String,
    pub client_id: String,
    pub restart: bool,
    pub entry: RuntimeEntry,
}

/// The proxy is to listen on an address.
#[derive(Debug)]
pub struct BindJob {
    pub serve: ServeJob,
    pub bind: SocketAddress,
}

/// A listener is to be bound: to the address that was asked for or, after that
/// failed, to another port of it.
#[derive(Debug)]
pub struct ListenJob {
    pub serve: ServeJob,
    pub requested: SocketAddress,
    pub address: SocketAddress,
    pub first_error: Option<String>,
}

/// The proxy is to be started on a listener.
#[derive(Debug)]
pub struct LaunchJob {
    pub serve: ServeJob,
    pub requested: SocketAddress,
    pub address: SocketAddress,
    pub token: String,
    pub allowed_origin: String,
}

/// The proxy runs; the side panel's app server is to run too.
#[derive(Debug)]
pub struct RunJob {
    pub serve: ServeJob,
    pub address: SocketAddress,
    pub token: String,
}

/// An app server is to be started.
#[derive(Debug)]
pub struct StartJob {
    pub run: RunJob,
    pub socket_path: Vec<u8>,
}

/// An app server was started and is waited for.
#[derive(Debug)]
pub struct WaitJob {
    pub run: RunJob,
    pub process: ManagedProcess,
    pub pause: bool,
}

/// What came of setting a listener up.
#[derive(Debug)]
pub enum ListenerSetup {
    /// It listens at that address.
    Ready(SocketAddress),
    NotConfigured(String),
    NoAddress(String),
}

/// What came of starting the proxy.
#[derive(Debug)]
pub enum ProxyStart {
    Started,
    NoRuntime(String),
    NoThread(String),
}

/// What the runtime directory is prepared for.
#[derive(Debug)]
pub enum RootPurpose {
    Asset { id: Json, file_name: String },
    Proxy(BindJob),
    AppServer(RunJob),
}

impl RootPurpose {
    /// The request that the directory is prepared for.
    pub open spec fn id(self) -> Json {
        match self {
            RootPurpose::Asset { id, .. } => id,
            RootPurpose::Proxy(job) => job.serve.id,
            RootPurpose::AppServer(run) => run.serve.id,
        }
    }
}

/// What is done to the proxy while nothing else is.
#[derive(Debug)]
pub enum ProxyWork {
    Ensure(BindJob),
    Shutdown,
}

impl ProxyWork {
    /// The request that the proxy is touched for, by its id.
    pub open spec fn id(self) -> Option<JsonView> {
        match self {
            ProxyWork::Ensure(job) => Some(job.serve.id@),
            ProxyWork::Shutdown => None,
        }
    }
}

/// What is done to the app servers while nothing else is.
#[derive(Debug)]
pub enum ProcessWork {
    Ensure(RunJob),
    Shutdown,
}

impl ProcessWork {
    /// The request that the app servers are touched for, by its id.
    pub open spec fn id(self) -> Option<JsonView> {
        match self {
            ProcessWork::Ensure(run) => Some(run.serve.id@),
            ProcessWork::Shutdown => None,
        }
    }
}

/// What comes after an app server was stopped.
#[derive(Debug)]
pub enum AfterStop {
    Replace(RunJob),
    Refuse(Refusal),
    Ready(RunJob),
    Shutdown(Vec<ManagedProcess>),
}

impl AfterStop {
    /// The request that an app server is stopped for, by its id.
    pub open spec fn id(self) -> Option<JsonView> {
        match self {
            AfterStop::Replace(run) => Some(run.serve.id@),
            AfterStop::Refuse(refusal) => Some(refusal.id@),
            AfterStop::Ready(run) => Some(run.serve.id@),
            AfterStop::Shutdown(_) => None,
        }
    }
}

/// What the runtime does next.
#[derive(Debug)]
pub enum Step {
    /// The request is answered.
    Reply(Json),
    /// The program that opens files is looked for.
    FindOpener(Json),
    /// The runtime directory is made, private to the user.
    PrepareRoot(RootPurpose),
    /// The directory for assets is made, private to the user.
    PrepareAssetDir(AssetDirJob),
    /// Nothing else may touch the assets from here to the reply.
    LockAssets(AssetWork),
    /// A new file is created and kept open.
    CreateAssetFile(CreateJob),
    /// Bytes are written at the end of an asset's file.
    WriteAsset(AppendJob),
    /// An asset's file is brought to disk.
    SyncAsset(FinishJob),
    /// An asset's file is closed and removed.
    RemoveAssetFile(RemoveJob),
    /// A local file is looked at, links not followed.
    InspectLocalFile(OpenJob),
    /// A local file is opened on the desktop.
    OpenLocalFile(OpenJob),
    /// The manifests are read.
    ReadManifests(EnsureJob),
    /// The hosts that entries name are identified, links followed.
    IdentifyHosts(HostsJob),
    /// The paths of an entry are looked at.
    InspectEntry(ServeJob),
    /// Nothing else may touch the proxy until the app servers are locked.
    LockProxy(ProxyWork),
    /// The proxy is stopped.
    StopProxy(ProxyWork),
    /// A listener is bound to `address`.
    BindListener(ListenJob),
    /// The listener is set up and asked for its address.
    ConfigureListener(ListenJob),
    /// The proxy is started.
    StartProxy(LaunchJob),
    /// Nothing else may touch the app servers from here to the reply.
    LockProcesses(ProcessWork),
    /// The process of that group and the socket at that path are looked at.
    InspectProcess(i32, Vec<u8>, RunJob),
    /// An app server is stopped.
    StopProcess(ManagedProcess, AfterStop),
    /// The processes of those groups are asked whether they still run.
    PollProcesses(Vec<i32>, RunJob),
    /// The sockets of app servers that have exited are removed.
    RemoveSockets(Vec<Vec<u8>>, RunJob),
    /// A socket that was left behind is removed.
    RemoveStaleSocket(StartJob),
    /// An app server is started.
    SpawnServer(AppServerCommand, StartJob),
    /// A starting app server and its socket are looked at, after a pause.
    PollServer(WaitJob),
    /// The socket of an app server that died is removed.
    RemoveDeadSocket(Vec<u8>, Refusal),
    /// The browser client and the desktop app's state are read.
    ReadConfig(RunJob),
    /// The runtime directory is removed, and nothing is left to do.
    RemoveRoot(Vec<u8>),
}

/// The request that a step is taken for, by its id. A shutdown is no request.
pub open spec fn request_of(step: Step) -> Option<JsonView> {
    match step {
        Step::Reply(reply) => reply@.member("id"@),
        Step::FindOpener(id) => Some(id@),
        Step::PrepareRoot(purpose) => Some(purpose.id()@),
        Step::PrepareAssetDir(job) => Some(job.id@),
        Step::LockAssets(work) => work.id(),
        Step::CreateAssetFile(job) => Some(job.id@),
        Step::WriteAsset(job) => Some(job.id@),
        Step::SyncAsset(job) => Some(job.id@),
        Step::RemoveAssetFile(job) => Some(job.id@),
        Step::InspectLocalFile(job) => Some(job.id@),
        Step::OpenLocalFile(job) => Some(job.id@),
        Step::ReadManifests(job) => Some(job.id@),
        Step::IdentifyHosts(job) => Some(job.ensure.id@),
        Step::InspectEntry(job) => Some(job.id@),
        Step::LockProxy(work) => work.id(),
        Step::StopProxy(work) => work.id(),
        Step::BindListener(job) => Some(job.serve.id@),
        Step::ConfigureListener(job) => Some(job.serve.id@),
        Step::StartProxy(job) => Some(job.serve.id@),
        Step::LockProcesses(work) => work.id(),
        Step::InspectProcess(_, _, run) => Some(run.serve.id@),
        Step::StopProcess(_, after) => after.id(),
        Step::PollProcesses(_, run) => Some(run.serve.id@),
        Step::RemoveSockets(_, run) => Some(run.serve.id@),
        Step::RemoveStaleSocket(job) => Some(job.run.serve.id@),
        Step::SpawnServer(_, job) => Some(job.run.serve.id@),
        Step::PollServer(job) => Some(job.run.serve.id@),
        Step::RemoveDeadSocket(_, refusal) => Some(refusal.id@),
        Step::ReadConfig(run) => Some(run.serve.id@),
        Step::RemoveRoot(_) => None,
    }
}

/// Whether a step refuses the request `id`.
pub open spec fn refuses(step: Step, id: JsonView, e: ErrorView) -> bool {
    step matches Step::Reply(reply) && reply@ == error_reply(id, e)
}

/// Whether a step grants the request `id`.
pub open spec fn answers(step: Step, id: JsonView, result: JsonView) -> bool {
    step matches Step::Reply(reply) && reply@ == result_reply(id, result)
}

/// A reply carries the id of its request.
pub proof fn lemma_replies_name_the_request(id: JsonView, e: ErrorView, result: JsonView)
    ensures
        error_reply(id, e).member("id"@) == Some(id),
        result_reply(id, result).member("id"@) == Some(id),
{
    reveal_strlit("jsonrpc");
    reveal_strlit("id");
    reveal_strlit("error");
    reveal_strlit("result");
    assert("id"@.len() == 2 && "jsonrpc"@.len() == 7 && "error"@.len() == 5 && "result"@.len()
        == 6);
}

/// Refuses a request.
pub fn refuse(id: Json, error: RuntimeError) -> (r: Step)
    ensures
        refuses(r, id@, error@),
        request_of(r) == Some(id@),
{
    proof {
        lemma_replies_name_the_request(id@, error@, JsonView::Null);
    }
    Step::Reply(respond(id, Err(error)))
}

/// Grants a request.
pub fn answer(id: Json, result: Json) -> (r: Step)
    ensures
        answers(r, id@, result@),
        request_of(r) == Some(id@),
{
    proof {
        lemma_replies_name_the_request(id@, ErrorView::internal(Seq::empty()), result@);
    }
    Step::Reply(respond(id, Ok(result)))
}

} // verus!
