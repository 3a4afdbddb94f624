//! The runtime: what it keeps, and how it answers requests.
use crate::admission::{client_id_of, normalized_client_id};
use crate::assets::{
    asset_chunk, asset_file_name, assets_in_bounds, base64_bytes, chunk_bytes, invalid_chunk,
    validate_asset_file_name, TabContextAsset,
};
use crate::decode::text_view;
use crate::endpoint::SocketAddress;
use crate::error::{ErrorView, RuntimeError, RuntimeResult};
use crate::fields::contents;
use crate::files::reports;
use crate::json::{Json, JsonView, Members};
use crate::json_text::{from_value, value_view};
use crate::manifest::{
    constraints_of, parse_constraints, ConstraintsView, RuntimeConstraints,
    NATIVE_HOST_PROTOCOL_VERSION,
};
use crate::params::{missing_parameter, missing_parameter_error, required_string, required_text};
use crate::paths::{absolute, is_absolute};
use crate::process::{client_socket, ManagedProcess, MAX_APP_SERVER_PROCESSES};
use crate::roots::{
    base_nonce_of, drawn, manifest_list, manifest_paths, nonce_of, root_for,
    unique_runtime_root, HostFacts, ManifestEnv,
};
use crate::selection::{no_matching_install, no_matching_install_error};
use crate::steps::{
    refuse, refuses, request_of, AssetWork, EnsureJob, OpenJob, ProxyWork, RootPurpose, Step,
};
use crate::table::Table;
use crate::text::{blank, is_blank, same_text, starts_with};
use vstd::prelude::*;
use vstd::slice::slice_to_vec;
use vstd::string::*;
use vstd::utf8::encode_utf8;

verus! {

/// The method that opens a local file on the desktop.
pub const OPEN_LOCAL_FILE_METHOD: &'static str = "codexRuntime/openLocalFile";

/// A proxy that was started.
#[derive(Debug)]
pub struct ProxyServer {
    pub address: SocketAddress,
    pub requested_address: SocketAddress,
    pub token: String,
}

/// The runtime of one extension: its assets, its proxy and its app servers.
#[derive(Debug)]
pub struct RuntimeManager {
    pub assets: Table<TabContextAsset>,
    pub extension_id: Option<String>,
    pub manifest_paths_override: Option<Vec<Vec<u8>>>,
    pub processes: Table<ManagedProcess>,
    pub proxy: Option<ProxyServer>,
    pub runtime_root: Vec<u8>,
}

/// The id of a request; null if it has none.
pub open spec fn request_id(message: JsonView) -> JsonView {
    match message.member("id"@) {
        Some(id) => id,
        None => JsonView::Null,
    }
}

/// The method of a request; empty if it has none.
pub open spec fn request_method(message: JsonView) -> Seq<char> {
    match message.member("method"@) {
        Some(JsonView::Text(method)) => method,
        _ => ""@,
    }
}

/// The parameters of a request; an empty object if it has none.
pub open spec fn request_params(message: JsonView) -> JsonView {
    match message.member("params"@) {
        Some(params) => params,
        None => JsonView::Object(Map::empty()),
    }
}

/// Whether a message is a request to the runtime: it has an id, and a method
/// of the runtime's.
pub open spec fn runtime_request(message: JsonView) -> bool {
    &&& message.member("id"@) is Some
    &&& message.member("method"@) is Some
    &&& message.member("method"@)->Some_0 is Text
    &&& "codexRuntime/"@.is_prefix_of(message.member("method"@)->Some_0->Text_0)
}

/// Whether a message is a request to the runtime.
pub fn is_runtime_request(message: &Json) -> (r: bool)
    ensures
        r == runtime_request(message@),
{
    message.get("id").is_some() && match message.get("method") {
        Some(Json::Text(method)) => starts_with(method.as_str(), "codexRuntime/"),
        _ => false,
    }
}

/// Whether a message, as `serde_json` has read it, is a request to the runtime.
pub fn is_runtime_value(message: serde_json::Value) -> (r: bool)
    ensures
        r == runtime_request(value_view(message)),
{
    is_runtime_request(&from_value(message))
}

/// A greeting is answered, unless it comes with demands that cannot be read.
pub open spec fn hello_started(step: Step, id: JsonView, params: JsonView) -> bool {
    if params.member("constraints"@) matches Some(c) && constraints_of(c) is None {
        refuses(step, id, ErrorView::invalid_params("Invalid Codex runtime constraints"@))
    } else {
        step matches Step::FindOpener(job) && job@ == id
    }
}

/// What is wrong with a demand, if anything is: its protocol is another, it
/// leaves something empty, or it is not made by the runtime's extension.
pub open spec fn invocation_fault(extension_id: Option<Seq<char>>, c: ConstraintsView) -> Option<
    ErrorView,
> {
    if c.required_native_host_protocol_version != NATIVE_HOST_PROTOCOL_VERSION {
        Some(
            ErrorView::typed(
                "version_mismatch"@,
                "The Codex app and Chrome extension versions are incompatible."@,
            ),
        )
    } else if blank(c.native_host_name) || blank(c.extension_build_channel) || blank(
        c.extension_version,
    ) {
        Some(ErrorView::invalid_params("Runtime constraints contain empty values"@))
    } else if extension_id != Some(c.extension_id) {
        Some(no_matching_install())
    } else {
        None
    }
}

/// A side panel's wish for its app server is followed, or refused for its
/// demands or its client id.
pub open spec fn ensure_started(
    extension_id: Option<Seq<char>>,
    step: Step,
    id: JsonView,
    params: JsonView,
    restart: bool,
) -> bool {
    match params.member("constraints"@) {
        None => refuses(step, id, missing_parameter("constraints"@)),
        Some(stated) => match constraints_of(stated) {
            None => refuses(
                step,
                id,
                ErrorView::invalid_params("Invalid Codex runtime constraints"@),
            ),
            Some(c) => match (
                invocation_fault(extension_id, c),
                client_id_of(params.member("clientId"@)),
            ) {
                (Some(fault), _) => refuses(step, id, fault),
                (None, None) => refuses(step, id, ErrorView::invalid_params("Invalid clientId"@)),
                (None, Some(client)) => {
                    &&& step matches Step::ReadManifests(job)
                    &&& job.id@ == id
                    &&& job.constraints@ == c
                    &&& job.client_id@ == client
                    &&& job.restart == restart
                },
            },
        },
    }
}

/// A new asset is begun if its file name is one.
pub open spec fn create_started(step: Step, id: JsonView, params: JsonView) -> bool {
    match required_text(params, "fileName"@) {
        None => refuses(step, id, missing_parameter("fileName"@)),
        Some(name) => if asset_file_name(name) {
            step matches Step::PrepareRoot(RootPurpose::Asset { id: job_id, file_name }) && job_id@
                == id && file_name@ == name
        } else {
            refuses(
                step,
                id,
                ErrorView::invalid_params("Invalid Chrome tab context asset file name"@),
            )
        },
    }
}

/// A chunk is taken to its asset if it can be read.
pub open spec fn append_started(step: Step, id: JsonView, params: JsonView) -> bool {
    match (required_text(params, "assetId"@), required_text(params, "dataBase64"@)) {
        (None, _) => refuses(step, id, missing_parameter("assetId"@)),
        (Some(_), None) => refuses(step, id, missing_parameter("dataBase64"@)),
        (Some(asset_id), Some(text)) => match chunk_bytes(text, base64_bytes(text)) {
            Some(data) => {
                &&& step matches Step::LockAssets(AssetWork::Append { id: job_id, chunk })
                &&& job_id@ == id
                &&& chunk.asset_id@ == asset_id
                &&& chunk.data@ == data
            },
            None => refuses(step, id, invalid_chunk()),
        },
    }
}

/// An asset is named that is to be completed.
pub open spec fn finish_started(step: Step, id: JsonView, params: JsonView) -> bool {
    match required_text(params, "assetId"@) {
        None => refuses(step, id, missing_parameter("assetId"@)),
        Some(wanted) => step matches Step::LockAssets(
            AssetWork::Finish { id: job_id, asset_id },
        ) && job_id@ == id && asset_id@ == wanted,
    }
}

/// An asset is named that is to be removed.
pub open spec fn remove_started(step: Step, id: JsonView, params: JsonView) -> bool {
    match required_text(params, "assetId"@) {
        None => refuses(step, id, missing_parameter("assetId"@)),
        Some(wanted) => step matches Step::LockAssets(
            AssetWork::Remove { id: job_id, asset_id },
        ) && job_id@ == id && asset_id@ == wanted,
    }
}

/// A local file is named that is to be opened.
pub open spec fn open_started(step: Step, id: JsonView, params: JsonView) -> bool {
    match required_text(params, "path"@) {
        None => refuses(step, id, missing_parameter("path"@)),
        Some(wanted) => if absolute(encode_utf8(wanted)) {
            step matches Step::InspectLocalFile(job) && job.id@ == id && job.path@ == wanted
        } else {
            refuses(step, id, ErrorView::invalid_params("Local file path must be absolute"@))
        },
    }
}

/// What a request leads to, by its method.
pub open spec fn request_started(m: RuntimeManager, message: JsonView, step: Step) -> bool {
    let id = request_id(message);
    let method = request_method(message);
    let params = request_params(message);
    let extension_id = text_view(m.extension_id);
    if method == "codexRuntime/hello"@ {
        hello_started(step, id, params)
    } else if method == "codexRuntime/ensure"@ {
        ensure_started(extension_id, step, id, params, false)
    } else if method == "codexRuntime/restart"@ {
        ensure_started(extension_id, step, id, params, true)
    } else if method == "codexRuntime/tabContextAsset/create"@ {
        create_started(step, id, params)
    } else if method == "codexRuntime/tabContextAsset/appendChunk"@ {
        append_started(step, id, params)
    } else if method == "codexRuntime/tabContextAsset/finish"@ {
        finish_started(step, id, params)
    } else if method == "codexRuntime/tabContextAsset/abort"@ || method
        == "codexRuntime/tabContextAsset/remove"@ {
        remove_started(step, id, params)
    } else if method == OPEN_LOCAL_FILE_METHOD@ {
        open_started(step, id, params)
    } else {
        refuses(step, id, ErrorView::method_not_found(method))
    }
}

impl RuntimeManager {
    /// Whether no two assets, and no two app servers, share a name, both keep
    /// to their limits, and each app server has the socket of its client.
    pub open spec fn wf(&self) -> bool {
        &&& self.assets.wf()
        &&& self.processes.wf()
        &&& assets_in_bounds(self.assets@)
        &&& self.processes@.len() <= MAX_APP_SERVER_PROCESSES
        &&& forall|client: Seq<char>|
            #[trigger] self.processes@.contains_key(client) ==> self.has_socket_of(
                self.processes@[client],
                client,
            )
    }

    /// Whether an app server listens where that of a client does.
    pub open spec fn has_socket_of(&self, process: ManagedProcess, client_id: Seq<char>) -> bool {
        process.socket_path@ == client_socket(self.runtime_root@, client_id)
    }

    /// Whether the app server of a client can be added, or takes another's
    /// place.
    pub open spec fn has_room_for(&self, client_id: Seq<char>) -> bool {
        self.processes@.len() < MAX_APP_SERVER_PROCESSES || self.processes@.contains_key(client_id)
    }

    /// Whether nothing but the assets differs.
    pub open spec fn same_but_assets(&self, other: RuntimeManager) -> bool {
        &&& self.extension_id == other.extension_id
        &&& self.manifest_paths_override == other.manifest_paths_override
        &&& self.processes == other.processes
        &&& self.proxy == other.proxy
        &&& self.runtime_root == other.runtime_root
    }

    /// Whether nothing but the app servers differs.
    pub open spec fn same_but_processes(&self, other: RuntimeManager) -> bool {
        &&& self.assets == other.assets
        &&& self.extension_id == other.extension_id
        &&& self.manifest_paths_override == other.manifest_paths_override
        &&& self.proxy == other.proxy
        &&& self.runtime_root == other.runtime_root
    }

    /// Whether nothing but the proxy differs.
    pub open spec fn same_but_proxy(&self, other: RuntimeManager) -> bool {
        &&& self.assets == other.assets
        &&& self.extension_id == other.extension_id
        &&& self.manifest_paths_override == other.manifest_paths_override
        &&& self.processes == other.processes
        &&& self.runtime_root == other.runtime_root
    }

    /// The runtime of an extension, in a directory of its own.
    pub fn new(extension_id: Option<String>, facts: &HostFacts) -> (r: RuntimeManager)
        ensures
            r.wf(),
            r.extension_id == extension_id,
            r.manifest_paths_override is None,
            r.assets@ == Map::<Seq<char>, TabContextAsset>::empty(),
            r.processes@ == Map::<Seq<char>, ManagedProcess>::empty(),
            r.proxy is None,
            exists|base_random: Option<Seq<char>>, random: Option<Seq<char>>|
                #![trigger base_nonce_of(*facts, base_random), nonce_of(*facts, random)]
                drawn(base_random, 16) && drawn(random, 8) && r.runtime_root@ == root_for(
                    *facts,
                    base_nonce_of(*facts, base_random),
                    nonce_of(*facts, random),
                ),
    {
        RuntimeManager::with_runtime_root(extension_id, unique_runtime_root(facts), None)
    }

    /// The runtime of an extension, in a given directory.
    pub fn with_runtime_root(
        extension_id: Option<String>,
        runtime_root: Vec<u8>,
        manifest_paths_override: Option<Vec<Vec<u8>>>,
    ) -> (r: RuntimeManager)
        ensures
            r.wf(),
            r.extension_id == extension_id,
            r.manifest_paths_override == manifest_paths_override,
            r.assets@ == Map::<Seq<char>, TabContextAsset>::empty(),
            r.processes@ == Map::<Seq<char>, ManagedProcess>::empty(),
            r.proxy is None,
            r.runtime_root == runtime_root,
    {
        RuntimeManager {
            assets: Table::new(),
            extension_id,
            manifest_paths_override,
            processes: Table::new(),
            proxy: None,
            runtime_root,
        }
    }

    /// The manifests to read, in order.
    pub fn manifest_sources(&self, env: &ManifestEnv) -> (r: Vec<Vec<u8>>)
        ensures
            contents(r@) == (match self.manifest_paths_override {
                Some(paths) => contents(paths@),
                None => manifest_list(*env),
            }),
    {
        match &self.manifest_paths_override {
            Some(paths) => {
                let mut out: Vec<Vec<u8>> = Vec::new();
                for i in 0..paths.len()
                    invariant
                        contents(out@) == contents(paths@).take(i as int),
                {
                    let ghost before = contents(out@);
                    out.push(slice_to_vec(paths[i].as_slice()));
                    assert(contents(out@) =~= before.push(paths@[i as int]@));
                    assert(contents(paths@).take(i + 1) =~= contents(paths@).take(i as int).push(
                        contents(paths@)[i as int],
                    ));
                }
                assert(contents(paths@).take(paths@.len() as int) =~= contents(paths@));
                out
            },
            None => manifest_paths(env),
        }
    }

    /// Takes a request on.
    pub fn handle_request(&self, message: &Json) -> (r: Step)
        ensures
            request_of(r) == Some(request_id(message@)),
            request_started(*self, message@, r),
    {
        let id = match message.get("id") {
            Some(id) => id.copy(),
            None => Json::Null,
        };
        let method = match message.get("method") {
            Some(Json::Text(method)) => method.as_str(),
            _ => "",
        };
        let params = match message.get("params") {
            Some(params) => params.copy(),
            None => Members::new().object(),
        };
        if same_text(method, "codexRuntime/hello") {
            self.hello(id, &params)
        } else if same_text(method, "codexRuntime/ensure") {
            self.ensure(id, &params, false)
        } else if same_text(method, "codexRuntime/restart") {
            self.ensure(id, &params, true)
        } else if same_text(method, "codexRuntime/tabContextAsset/create") {
            self.create_asset(id, &params)
        } else if same_text(method, "codexRuntime/tabContextAsset/appendChunk") {
            self.append_asset(id, &params)
        } else if same_text(method, "codexRuntime/tabContextAsset/finish") {
            self.finish_asset(id, &params)
        } else if same_text(method, "codexRuntime/tabContextAsset/abort") || same_text(
            method,
            "codexRuntime/tabContextAsset/remove",
        ) {
            self.remove_asset(id, &params)
        } else if same_text(method, OPEN_LOCAL_FILE_METHOD) {
            self.open_local_file(id, &params)
        } else {
            refuse(id, RuntimeError::method_not_found(method))
        }
    }

    /// Takes a request on, as `serde_json` has read it.
    pub fn handle_value(&self, message: serde_json::Value) -> (r: Step)
        ensures
            request_of(r) == Some(request_id(value_view(message))),
            request_started(*self, value_view(message), r),
    {
        self.handle_request(&from_value(message))
    }

    /// Takes a greeting on.
    pub fn hello(&self, id: Json, params: &Json) -> (r: Step)
        ensures
            request_of(r) == Some(id@),
            hello_started(r, id@, params@),
    {
        match params.get("constraints") {
            Some(constraints) => match parse_constraints(constraints) {
                Ok(_) => {},
                Err(error) => return refuse(id, error),
            },
            None => {},
        }
        Step::FindOpener(id)
    }

    /// Takes a side panel's wish for its app server on.
    pub fn ensure(&self, id: Json, params: &Json, restart: bool) -> (r: Step)
        ensures
            request_of(r) == Some(id@),
            ensure_started(text_view(self.extension_id), r, id@, params@, restart),
    {
        let constraints = match params.get("constraints") {
            Some(stated) => match parse_constraints(stated) {
                Ok(constraints) => constraints,
                Err(error) => return refuse(id, error),
            },
            None => return refuse(id, missing_parameter_error("constraints")),
        };
        match self.validate_invocation(&constraints) {
            Ok(()) => {},
            Err(error) => return refuse(id, error),
        }
        match normalized_client_id(params.get("clientId")) {
            Ok(client_id) => Step::ReadManifests(
                EnsureJob { id, constraints, client_id, restart },
            ),
            Err(error) => refuse(id, error),
        }
    }

    /// Checks a demand against the runtime.
    pub fn validate_invocation(&self, constraints: &RuntimeConstraints) -> (r: RuntimeResult<()>)
        ensures
            reports(r, invocation_fault(text_view(self.extension_id), constraints@)),
    {
        if constraints.required_native_host_protocol_version != NATIVE_HOST_PROTOCOL_VERSION {
            return Err(
                RuntimeError::typed(
                    "version_mismatch",
                    "The Codex app and Chrome extension versions are incompatible.",
                ),
            );
        }
        if is_blank(constraints.native_host_name.as_str()) || is_blank(
            constraints.extension_build_channel.as_str(),
        ) || is_blank(constraints.extension_version.as_str()) {
            return Err(RuntimeError::invalid_params("Runtime constraints contain empty values"));
        }
        match &self.extension_id {
            Some(extension_id) => if same_text(
                extension_id.as_str(),
                constraints.extension_id.as_str(),
            ) {
                return Ok(());
            },
            None => {},
        }
        Err(no_matching_install_error())
    }

    /// Takes a request for a new asset on.
    pub fn create_asset(&self, id: Json, params: &Json) -> (r: Step)
        ensures
            request_of(r) == Some(id@),
            create_started(r, id@, params@),
    {
        let file_name = match required_string(params, "fileName") {
            Ok(file_name) => file_name,
            Err(error) => return refuse(id, error),
        };
        match validate_asset_file_name(file_name) {
            Ok(()) => Step::PrepareRoot(
                RootPurpose::Asset { id, file_name: file_name.to_owned() },
            ),
            Err(error) => refuse(id, error),
        }
    }

    /// Takes a chunk of an asset on.
    pub fn append_asset(&self, id: Json, params: &Json) -> (r: Step)
        ensures
            request_of(r) == Some(id@),
            append_started(r, id@, params@),
    {
        match asset_chunk(params) {
            Ok(chunk) => Step::LockAssets(AssetWork::Append { id, chunk }),
            Err(error) => refuse(id, error),
        }
    }

    /// Takes a request to complete an asset on.
    pub fn finish_asset(&self, id: Json, params: &Json) -> (r: Step)
        ensures
            request_of(r) == Some(id@),
            finish_started(r, id@, params@),
    {
        match required_string(params, "assetId") {
            Ok(asset_id) => Step::LockAssets(
                AssetWork::Finish { id, asset_id: asset_id.to_owned() },
            ),
            Err(error) => refuse(id, error),
        }
    }

    /// Takes a request to remove an asset on.
    pub fn remove_asset(&self, id: Json, params: &Json) -> (r: Step)
        ensures
            request_of(r) == Some(id@),
            remove_started(r, id@, params@),
    {
        match required_string(params, "assetId") {
            Ok(asset_id) => Step::LockAssets(
                AssetWork::Remove { id, asset_id: asset_id.to_owned() },
            ),
            Err(error) => refuse(id, error),
        }
    }

    /// Takes a request to open a local file on.
    pub fn open_local_file(&self, id: Json, params: &Json) -> (r: Step)
        ensures
            request_of(r) == Some(id@),
            open_started(r, id@, params@),
    {
        match required_string(params, "path") {
            Ok(path) => if is_absolute(path.as_bytes()) {
                Step::InspectLocalFile(OpenJob { id, path: path.to_owned() })
            } else {
                refuse(id, RuntimeError::invalid_params("Local file path must be absolute"))
            },
            Err(error) => refuse(id, error),
        }
    }

    /// Begins to shut the runtime down.
    pub fn shutdown(&self) -> (r: Step)
        ensures
            r == Step::LockProxy(ProxyWork::Shutdown),
    {
        Step::LockProxy(ProxyWork::Shutdown)
    }
}

} // verus!
