//! What holds of requests: which step each leads to, what it takes to be
//! followed, and how it is answered.
use crate::admission::client_id_of;
use crate::assets::{
    asset_chunk, asset_dir, asset_file_name, asset_json, asset_not_found, asset_view,
    assets_in_bounds, base64_bytes, chunk_bytes, size_after, validate_asset_file_name, AssetChunk,
    Assets,
};
use crate::decode::text_view;
use crate::encode::drawn_or_not;
use crate::error::{error_reply, result_reply, ErrorView, RuntimeError, RuntimeResult};
use crate::file_laws::{an_absolute_path_begins_with_a_slash, says_something};
use crate::json::{Json, JsonNumber, JsonView};
use crate::json_text::value_view;
use crate::manager::{
    invocation_fault, is_runtime_value, request_id, request_started, runtime_request,
    RuntimeManager,
};
use crate::manifest::{constraints_of, ConstraintsView, RuntimeConstraints};
use crate::manifest_laws::{a_demand_is_read_by_name, is_number};
use crate::paths::path_parts;
use crate::requests::{asset_drawn, assets_worked, hello_view};
use crate::roots::below;
use crate::steps::{answer, refuse, refuses, request_of, AssetWork, RootPurpose, Step};
use crate::text::blank;
use crate::value_laws::{a_joined_path_goes_on, lemma_one_part};
use vstd::prelude::*;
use vstd::utf8::{
    decode_utf8_encode_utf8, encode_utf8, is_ascii_chars, is_ascii_chars_encode_utf8, valid_utf8,
};

verus! {

/// The methods of the runtime are all different, and none is empty.
pub proof fn lemma_methods()
    ensures
        ""@ != "codexRuntime/hello"@,
        ""@ != "codexRuntime/ensure"@,
        "codexRuntime/hello"@ != "codexRuntime/ensure"@,
        ""@ != "codexRuntime/restart"@,
        "codexRuntime/hello"@ != "codexRuntime/restart"@,
        "codexRuntime/ensure"@ != "codexRuntime/restart"@,
        ""@ != "codexRuntime/tabContextAsset/create"@,
        "codexRuntime/hello"@ != "codexRuntime/tabContextAsset/create"@,
        "codexRuntime/ensure"@ != "codexRuntime/tabContextAsset/create"@,
        "codexRuntime/restart"@ != "codexRuntime/tabContextAsset/create"@,
        ""@ != "codexRuntime/tabContextAsset/appendChunk"@,
        "codexRuntime/hello"@ != "codexRuntime/tabContextAsset/appendChunk"@,
        "codexRuntime/ensure"@ != "codexRuntime/tabContextAsset/appendChunk"@,
        "codexRuntime/restart"@ != "codexRuntime/tabContextAsset/appendChunk"@,
        "codexRuntime/tabContextAsset/create"@ != "codexRuntime/tabContextAsset/appendChunk"@,
        ""@ != "codexRuntime/tabContextAsset/finish"@,
        "codexRuntime/hello"@ != "codexRuntime/tabContextAsset/finish"@,
        "codexRuntime/ensure"@ != "codexRuntime/tabContextAsset/finish"@,
        "codexRuntime/restart"@ != "codexRuntime/tabContextAsset/finish"@,
        "codexRuntime/tabContextAsset/create"@ != "codexRuntime/tabContextAsset/finish"@,
        "codexRuntime/tabContextAsset/appendChunk"@ != "codexRuntime/tabContextAsset/finish"@,
        ""@ != "codexRuntime/tabContextAsset/abort"@,
        "codexRuntime/hello"@ != "codexRuntime/tabContextAsset/abort"@,
        "codexRuntime/ensure"@ != "codexRuntime/tabContextAsset/abort"@,
        "codexRuntime/restart"@ != "codexRuntime/tabContextAsset/abort"@,
        "codexRuntime/tabContextAsset/create"@ != "codexRuntime/tabContextAsset/abort"@,
        "codexRuntime/tabContextAsset/appendChunk"@ != "codexRuntime/tabContextAsset/abort"@,
        "codexRuntime/tabContextAsset/finish"@ != "codexRuntime/tabContextAsset/abort"@,
        ""@ != "codexRuntime/tabContextAsset/remove"@,
        "codexRuntime/hello"@ != "codexRuntime/tabContextAsset/remove"@,
        "codexRuntime/ensure"@ != "codexRuntime/tabContextAsset/remove"@,
        "codexRuntime/restart"@ != "codexRuntime/tabContextAsset/remove"@,
        "codexRuntime/tabContextAsset/create"@ != "codexRuntime/tabContextAsset/remove"@,
        "codexRuntime/tabContextAsset/appendChunk"@ != "codexRuntime/tabContextAsset/remove"@,
        "codexRuntime/tabContextAsset/finish"@ != "codexRuntime/tabContextAsset/remove"@,
        "codexRuntime/tabContextAsset/abort"@ != "codexRuntime/tabContextAsset/remove"@,
        ""@ != "codexRuntime/openLocalFile"@,
        "codexRuntime/hello"@ != "codexRuntime/openLocalFile"@,
        "codexRuntime/ensure"@ != "codexRuntime/openLocalFile"@,
        "codexRuntime/restart"@ != "codexRuntime/openLocalFile"@,
        "codexRuntime/tabContextAsset/create"@ != "codexRuntime/openLocalFile"@,
        "codexRuntime/tabContextAsset/appendChunk"@ != "codexRuntime/openLocalFile"@,
        "codexRuntime/tabContextAsset/finish"@ != "codexRuntime/openLocalFile"@,
        "codexRuntime/tabContextAsset/abort"@ != "codexRuntime/openLocalFile"@,
        "codexRuntime/tabContextAsset/remove"@ != "codexRuntime/openLocalFile"@,
{
    reveal_strlit("");
    reveal_strlit("codexRuntime/hello");
    reveal_strlit("codexRuntime/ensure");
    reveal_strlit("codexRuntime/restart");
    reveal_strlit("codexRuntime/tabContextAsset/create");
    reveal_strlit("codexRuntime/tabContextAsset/appendChunk");
    reveal_strlit("codexRuntime/tabContextAsset/finish");
    reveal_strlit("codexRuntime/tabContextAsset/abort");
    reveal_strlit("codexRuntime/tabContextAsset/remove");
    reveal_strlit("codexRuntime/openLocalFile");
    assert(""@.len() == 0);
    assert("codexRuntime/hello"@.len() == 18);
    assert("codexRuntime/ensure"@.len() == 19);
    assert("codexRuntime/restart"@.len() == 20);
    assert("codexRuntime/tabContextAsset/create"@.len() == 35);
    assert("codexRuntime/tabContextAsset/appendChunk"@.len() == 40);
    assert("codexRuntime/tabContextAsset/finish"@.len() == 35);
    assert("codexRuntime/tabContextAsset/create"@[29]
        != "codexRuntime/tabContextAsset/finish"@[29]);
    assert("codexRuntime/tabContextAsset/abort"@.len() == 34);
    assert("codexRuntime/tabContextAsset/remove"@.len() == 35);
    assert("codexRuntime/tabContextAsset/create"@[29]
        != "codexRuntime/tabContextAsset/remove"@[29]);
    assert("codexRuntime/tabContextAsset/finish"@[29]
        != "codexRuntime/tabContextAsset/remove"@[29]);
    assert("codexRuntime/openLocalFile"@.len() == 26);
}

/// The names of the members of replies are all different.
proof fn lemma_reply_names()
    ensures
        "jsonrpc"@ != "id"@,
        "jsonrpc"@ != "error"@,
        "id"@ != "error"@,
        "jsonrpc"@ != "result"@,
        "id"@ != "result"@,
        "error"@ != "result"@,
        "code"@ != "message"@,
        "code"@ != "data"@,
        "message"@ != "data"@,
{
    reveal_strlit("jsonrpc");
    reveal_strlit("id");
    reveal_strlit("error");
    reveal_strlit("result");
    reveal_strlit("code");
    reveal_strlit("message");
    reveal_strlit("data");
    assert("jsonrpc"@.len() == 7);
    assert("id"@.len() == 2);
    assert("error"@.len() == 5);
    assert("result"@.len() == 6);
    assert("code"@.len() == 4);
    assert("message"@.len() == 7);
    assert("data"@.len() == 4);
    assert("code"@[0] != "data"@[0]);
}

/// A step that is not a reply is taken for the method that asks for it, with
/// what the request's own parameters say.
pub proof fn a_step_is_taken_for_its_method(
    m: RuntimeManager,
    request: Json,
    message: Map<Seq<char>, JsonView>,
    params: Map<Seq<char>, JsonView>,
    step: Step,
)
    requires
        call_ensures(RuntimeManager::handle_request, (&m, &request), step),
        request@ == JsonView::Object(message),
        message.contains_key("method"@),
        message.contains_key("params"@),
        message["params"@] == JsonView::Object(params),
    ensures
        step is FindOpener ==> message["method"@] == JsonView::Text("codexRuntime/hello"@),
        step matches Step::ReadManifests(job) ==> message["method"@] == JsonView::Text(
            if job.restart {
                "codexRuntime/restart"@
            } else {
                "codexRuntime/ensure"@
            },
        ),
        step matches Step::PrepareRoot(purpose) ==> (purpose matches RootPurpose::Asset {
            id,
            file_name,
        } && message["method"@] == JsonView::Text("codexRuntime/tabContextAsset/create"@)
            && params.contains_key("fileName"@) && params["fileName"@] == JsonView::Text(
            file_name@,
        )),
        step matches Step::LockAssets(work) ==> (match work {
            AssetWork::Append { chunk, .. } => message["method"@] == JsonView::Text(
                "codexRuntime/tabContextAsset/appendChunk"@,
            ) && params["assetId"@] == JsonView::Text(chunk.asset_id@) && params["dataBase64"@]
                is Text && base64_bytes(params["dataBase64"@]->Text_0) == Some(chunk.data@),
            AssetWork::Finish { asset_id, .. } => message["method"@] == JsonView::Text(
                "codexRuntime/tabContextAsset/finish"@,
            ) && params["assetId"@] == JsonView::Text(asset_id@),
            AssetWork::Remove { asset_id, .. } => (message["method"@] == JsonView::Text(
                "codexRuntime/tabContextAsset/abort"@,
            ) || message["method"@] == JsonView::Text("codexRuntime/tabContextAsset/remove"@))
                && params["assetId"@] == JsonView::Text(asset_id@),
            AssetWork::Create { .. } => false,
            AssetWork::Shutdown => false,
        }),
        step matches Step::InspectLocalFile(job) ==> message["method"@] == JsonView::Text(
            "codexRuntime/openLocalFile"@,
        ) && params["path"@] == JsonView::Text(job.path@),
        step is Reply || step is FindOpener || step is ReadManifests || step is PrepareRoot || step
            is LockAssets || step is InspectLocalFile,
        message.contains_key("id"@) ==> match step {
            Step::FindOpener(id) => id@ == message["id"@],
            Step::ReadManifests(job) => job.id@ == message["id"@],
            Step::PrepareRoot(RootPurpose::Asset { id, .. }) => id@ == message["id"@],
            Step::LockAssets(AssetWork::Append { id, .. }) => id@ == message["id"@],
            Step::LockAssets(AssetWork::Finish { id, .. }) => id@ == message["id"@],
            Step::LockAssets(AssetWork::Remove { id, .. }) => id@ == message["id"@],
            Step::InspectLocalFile(job) => job.id@ == message["id"@],
            _ => true,
        },
{
    lemma_methods();
}

/// A method leads to its step where its parameters are in order, and a method
/// that is none of the runtime's is refused as such.
pub proof fn a_method_leads_to_its_step(
    m: RuntimeManager,
    request: Json,
    message: Map<Seq<char>, JsonView>,
    params: Map<Seq<char>, JsonView>,
    step: Step,
)
    requires
        call_ensures(RuntimeManager::handle_request, (&m, &request), step),
        request@ == JsonView::Object(message),
        message.contains_key("id"@),
        message.contains_key("method"@),
        message["method"@] is Text,
        message.contains_key("params"@),
        message["params"@] == JsonView::Object(params),
    ensures
        message["method"@] == JsonView::Text("codexRuntime/hello"@) && !params.contains_key(
            "constraints"@,
        ) ==> step is FindOpener,
        message["method"@] == JsonView::Text("codexRuntime/tabContextAsset/create"@)
            && params.contains_key("fileName"@) && params["fileName"@] is Text
            && params["fileName"@]->Text_0.len() > 0 && asset_file_name(params["fileName"@]->Text_0)
            ==> step is PrepareRoot,
        message["method"@] == JsonView::Text("codexRuntime/tabContextAsset/finish"@)
            && params.contains_key("assetId"@) && params["assetId"@] is Text
            && params["assetId"@]->Text_0.len() > 0 ==> step is LockAssets,
        (message["method"@] == JsonView::Text("codexRuntime/tabContextAsset/abort"@)
            || message["method"@] == JsonView::Text("codexRuntime/tabContextAsset/remove"@))
            && params.contains_key("assetId"@) && params["assetId"@] is Text
            && params["assetId"@]->Text_0.len() > 0 ==> step is LockAssets,
        message["method"@] == JsonView::Text("codexRuntime/openLocalFile"@) && params.contains_key(
            "path"@,
        ) && params["path"@] is Text && params["path"@]->Text_0.len() > 0
            && params["path"@]->Text_0[0] == '/' ==> step is InspectLocalFile,
        !(message["method"@]->Text_0 == "codexRuntime/hello"@ || message["method"@]->Text_0
            == "codexRuntime/ensure"@ || message["method"@]->Text_0 == "codexRuntime/restart"@
            || message["method"@]->Text_0 == "codexRuntime/tabContextAsset/create"@
            || message["method"@]->Text_0 == "codexRuntime/tabContextAsset/appendChunk"@
            || message["method"@]->Text_0 == "codexRuntime/tabContextAsset/finish"@
            || message["method"@]->Text_0 == "codexRuntime/tabContextAsset/abort"@
            || message["method"@]->Text_0 == "codexRuntime/tabContextAsset/remove"@
            || message["method"@]->Text_0 == "codexRuntime/openLocalFile"@) ==> refuses(
            step,
            message["id"@],
            ErrorView {
                code: -32601,
                message: "Unsupported native host method: "@ + message["method"@]->Text_0,
                kind: None,
            },
        ),
{
    lemma_methods();
    if params.contains_key("path"@) && params["path"@] is Text {
        an_absolute_path_begins_with_a_slash(params["path"@]->Text_0);
    }
}

/// A side panel's wish is followed where its demand asks for the second version
/// of the protocol, says what it must say, is made by the runtime's own
/// extension, and names a client id or none; what is followed is that demand. A
/// demand for another version is refused for that before anything else.
pub proof fn a_wish_is_followed_for_its_demand(
    m: RuntimeManager,
    id: Json,
    asked: Json,
    step: Step,
    params: Map<Seq<char>, JsonView>,
    q: Map<Seq<char>, JsonView>,
    c: ConstraintsView,
    restart: bool,
)
    requires
        call_ensures(RuntimeManager::ensure, (&m, id, &asked, restart), step),
        asked@ == JsonView::Object(params),
        params.contains_key("constraints"@),
        params["constraints"@] == JsonView::Object(q),
        constraints_of(JsonView::Object(q)) == Some(c),
    ensures
        step is ReadManifests <==> {
            &&& is_number(q["requiredNativeHostProtocolVersion"@], 2)
            &&& says_something(q["nativeHostName"@]->Text_0)
            &&& says_something(q["extensionBuildChannel"@]->Text_0)
            &&& says_something(q["extensionVersion"@]->Text_0)
            &&& m.extension_id matches Some(own) && JsonView::Text(own@) == q["extensionId"@]
            &&& client_id_of(
                if params.contains_key("clientId"@) {
                    Some(params["clientId"@])
                } else {
                    None
                },
            ) is Some
        },
        step matches Step::ReadManifests(job) ==> {
            &&& job.id@ == id@
            &&& job.restart == restart
            &&& JsonView::Text(job.constraints.extension_id@) == q["extensionId"@]
            &&& JsonView::Text(job.constraints.native_host_name@) == q["nativeHostName"@]
            &&& JsonView::Text(job.constraints.extension_build_channel@)
                == q["extensionBuildChannel"@]
            &&& is_number(
                q["requiredAppServerProtocolVersion"@],
                job.constraints.required_app_server_protocol_version as int,
            )
        },
        !is_number(q["requiredNativeHostProtocolVersion"@], 2) ==> (step matches Step::Reply(reply)
            && reply@ == error_reply(
            id@,
            ErrorView {
                code: 1,
                message: "The Codex app and Chrome extension versions are incompatible."@,
                kind: Some("version_mismatch"@),
            },
        )),
{
    a_demand_is_read_by_name(q, c);
    lemma_says(c.native_host_name);
    lemma_says(c.extension_build_channel);
    lemma_says(c.extension_version);
}

/// A text is blank or says something.
proof fn lemma_says(text: Seq<char>)
    ensures
        blank(text) == !says_something(text),
{
}

/// A refusal is framed by its parts: the id of the request, the code, the
/// message and the kind, if there is one.
pub proof fn a_refusal_is_framed_by_its_parts(id: JsonView, e: ErrorView)
    requires
        i64::MIN <= e.code <= i64::MAX,
    ensures
        error_reply(id, e) matches JsonView::Object(reply) && {
            &&& reply["jsonrpc"@] == JsonView::Text("2.0"@)
            &&& reply["id"@] == id
            &&& !reply.contains_key("result"@)
            &&& reply["error"@] matches JsonView::Object(error) && {
                &&& error["message"@] == JsonView::Text(e.message)
                &&& is_number(error["code"@], e.code)
                &&& e.kind is None ==> error["data"@] == JsonView::Null
                &&& e.kind matches Some(kind) ==> error["data"@] == JsonView::Object(
                    map!["type"@ => JsonView::Text(kind)],
                )
            }
        },
{
    lemma_reply_names();
}

/// An answer is framed by the id of the request and the result.
pub proof fn an_answer_is_framed_by_its_result(id: JsonView, result: JsonView)
    ensures
        result_reply(id, result) matches JsonView::Object(reply) && {
            &&& reply["jsonrpc"@] == JsonView::Text("2.0"@)
            &&& reply["id"@] == id
            &&& reply["result"@] == result
            &&& !reply.contains_key("error"@)
        },
{
    lemma_reply_names();
}

/// Faults are told apart by their codes and kinds: those of parameters and of
/// methods have codes of JSON-RPC and no kind, and all others have the code 1
/// and a kind.
pub proof fn faults_are_told_apart(message: Seq<char>, kind: Seq<char>)
    ensures
        ErrorView::invalid_params(message) == (ErrorView { code: -32602, message, kind: None }),
        ErrorView::method_not_found(message) == (ErrorView {
            code: -32601,
            message: "Unsupported native host method: "@ + message,
            kind: None,
        }),
        ErrorView::typed(kind, message) == (ErrorView { code: 1, message, kind: Some(kind) }),
        ErrorView::internal(message) == (ErrorView {
            code: 1,
            message,
            kind: Some("app_server_runtime_error"@),
        }),
{
}

/// A greeting is answered with the second versions of the manifest and of the
/// protocol, the version of the host, and the one method that needs a program,
/// where the program is there.
pub proof fn a_greeting_is_answered_with_what_is_supported(version: Seq<char>, opens_files: bool)
    ensures
        hello_view(version, opens_files) matches JsonView::Object(hello) && {
            &&& hello["manifestSchemaVersion"@] == JsonView::Number(JsonNumber::PosInt(2))
            &&& hello["nativeHostProtocolVersion"@] == JsonView::Number(JsonNumber::PosInt(2))
            &&& hello["nativeHostVersion"@] == JsonView::Text(version)
            &&& hello["supportedProtocolVersions"@] == JsonView::Array(
                seq![JsonView::Number(JsonNumber::PosInt(2))],
            )
            &&& hello["supportedMethods"@] matches JsonView::Array(methods) && if opens_files {
                methods.len() == 1 && methods[0] == JsonView::Text("codexRuntime/openLocalFile"@)
            } else {
                methods.len() == 0
            }
        },
{
    reveal_strlit("manifestSchemaVersion");
    reveal_strlit("nativeHostProtocolVersion");
    reveal_strlit("nativeHostVersion");
    reveal_strlit("supportedMethods");
    reveal_strlit("supportedProtocolVersions");
    assert("manifestSchemaVersion"@.len() == 21);
    assert("nativeHostProtocolVersion"@.len() == 25);
    assert("nativeHostVersion"@.len() == 17);
    assert("supportedMethods"@.len() == 16);
    assert("supportedProtocolVersions"@.len() == 25);
    assert("nativeHostProtocolVersion"@[0] != "supportedProtocolVersions"@[0]);
}

/// There are at most 32 assets of at most 64 megabytes each, and the path of
/// each is text.
pub proof fn assets_are_few_and_small(assets: Assets)
    ensures
        assets_in_bounds(assets) <==> assets.len() <= 32 && forall|id: Seq<char>|
            #[trigger] assets.contains_key(id) ==> assets[id].size <= 64 * 1024 * 1024
                && valid_utf8(assets[id].path@),
{
}

/// A new asset is refused where there are 32, and only there: where there are
/// fewer, its file is to be created, unless no id could be drawn for it.
pub proof fn a_thirty_third_asset_is_refused(
    m: &mut RuntimeManager,
    id: Json,
    file_name: String,
    step: Step,
)
    requires
        call_ensures(RuntimeManager::assets_locked, (m, AssetWork::Create { id, file_name }), step),
    ensures
        old(m).assets@.len() >= 32 ==> refuses(
            step,
            id@,
            ErrorView {
                code: 1,
                message: "Too many active Chrome tab context assets"@,
                kind: Some("app_server_runtime_error"@),
            },
        ),
        old(m).assets@.len() < 32 ==> step is CreateAssetFile || exists|reason: Seq<char>|
            refuses(
                step,
                id@,
                ErrorView {
                    code: 1,
                    message: #[trigger] ("Failed to create Chrome tab context asset: "@ + reason),
                    kind: Some("app_server_runtime_error"@),
                },
            ),
        step is CreateAssetFile ==> old(m).assets@.len() < 32,
        step matches Step::CreateAssetFile(job) ==> job.id@ == id@ && job.asset_id@.len() == 32
            && job.path@ == below(
            asset_dir(old(m).runtime_root@),
            job.asset_id@ + "-"@ + file_name@,
        ),
        *final(m) == *old(m),
{
    if old(m).assets@.len() < 32 {
        assert(assets_worked(*old(m), AssetWork::Create { id, file_name }, step, *final(m)));
        let random = choose|random: Result<Seq<char>, Seq<char>>| #[trigger]
            drawn_or_not(random, 16) && asset_drawn(
                step,
                old(m).runtime_root@,
                id@,
                file_name@,
                random,
            );
        if let Err(reason) = random {
            let message = "Failed to create Chrome tab context asset: "@ + reason;
            assert(refuses(
                step,
                id@,
                ErrorView { code: 1, message, kind: Some("app_server_runtime_error"@) },
            ));
        }
    }
}

/// A chunk is taken where its asset is there, is not complete, and has room for
/// it within 64 megabytes; the asset then grows by as many bytes as the chunk
/// has.
pub proof fn a_chunk_is_taken_where_there_is_room(assets: Assets, asset_id: Seq<char>, length: nat)
    ensures
        size_after(assets, asset_id, length) is Ok <==> assets.contains_key(asset_id)
            && !assets[asset_id].finished && assets[asset_id].size + length <= 64 * 1024 * 1024,
        size_after(assets, asset_id, length) matches Ok(size) ==> size == assets[asset_id].size
            + length,
        !assets.contains_key(asset_id) ==> size_after(assets, asset_id, length) == Err::<
            int,
            ErrorView,
        >(asset_not_found()),
{
}

/// A chunk is read where its text is no longer than 64 kilobytes and decodes.
pub proof fn a_chunk_is_read_where_it_is_short(text: Seq<char>, decoded: Option<Seq<u8>>)
    ensures
        encode_utf8(text).len() <= 64 * 1024 ==> chunk_bytes(text, decoded) == decoded,
        encode_utf8(text).len() > 64 * 1024 ==> chunk_bytes(text, decoded) is None,
{
}

/// A file name is one that leads nowhere else: up to 255 bytes, neither of the
/// two names for directories, and without slashes of either kind and NUL.
pub proof fn a_file_name_leads_nowhere_else(name: Seq<char>)
    ensures
        asset_file_name(name) <==> {
            &&& encode_utf8(name).len() <= 255
            &&& !(name.len() == 1 && name[0] == '.')
            &&& !(name.len() == 2 && name[0] == '.' && name[1] == '.')
            &&& forall|i: int|
                0 <= i < name.len() ==> #[trigger] name[i] != '/' && name[i] != '\\' && name[i]
                    != '\0'
        },
{
    reveal_strlit(".");
    reveal_strlit("..");
    if name.len() == 1 && name[0] == '.' {
        assert(name =~= "."@);
    }
    if name.len() == 2 && name[0] == '.' && name[1] == '.' {
        assert(name =~= ".."@);
    }
    assert(name.contains('/') <==> exists|i: int| 0 <= i < name.len() && name[i] == '/');
    assert forall|i: int| asset_file_name(name) && 0 <= i < name.len() implies #[trigger] name[i]
        != '/' && name[i] != '\\' && name[i] != '\0' by {
        assert(name.contains(name[i]));
    }
}

/// What is told of an asset is its id and the text of its path.
pub proof fn an_asset_is_told_of_by_its_path(asset_id: Seq<char>, path: Seq<u8>)
    requires
        valid_utf8(path),
    ensures
        asset_view(asset_id, path) matches JsonView::Object(told) && {
            &&& told["assetId"@] == JsonView::Text(asset_id)
            &&& told["path"@] matches JsonView::Text(text) && encode_utf8(text) == path
        },
{
    reveal_strlit("assetId");
    reveal_strlit("path");
    assert("assetId"@.len() != "path"@.len());
    decode_utf8_encode_utf8(path);
}

/// Assets are kept in one directory below the runtime's own.
pub proof fn assets_are_kept_below_the_runtime_root(root: Seq<u8>)
    ensures
        path_parts(asset_dir(root)) == path_parts(root).push(
            encode_utf8("codex-tab-context-assets"@),
        ),
{
    reveal_strlit("codex-tab-context-assets");
    let name = "codex-tab-context-assets"@;
    assert(is_ascii_chars(name));
    is_ascii_chars_encode_utf8(name);
    let bytes = encode_utf8(name);
    assert forall|i: int| 0 <= i < bytes.len() implies bytes[i] != 47 by {
        assert(bytes[i] == name[i] as u8);
    }
    a_joined_path_goes_on(root, bytes);
    lemma_one_part(bytes);
    assert(path_parts(root) + path_parts(bytes) =~= path_parts(root).push(bytes));
}

/// A value that `serde_json` has read is handled as what it holds.
pub proof fn a_value_is_handled_as_what_it_holds(
    m: RuntimeManager,
    value: serde_json::Value,
    step: Step,
    is: bool,
)
    requires
        call_ensures(RuntimeManager::handle_value, (&m, value), step),
        call_ensures(is_runtime_value, (value,), is),
    ensures
        request_started(m, value_view(value), step),
        request_of(step) == Some(request_id(value_view(value))),
        is == runtime_request(value_view(value)),
{
}

/// A demand is judged by its parts and the runtime's extension.
pub proof fn a_demand_is_judged_by_its_parts(
    m: RuntimeManager,
    demand: RuntimeConstraints,
    r: RuntimeResult<()>,
)
    requires
        call_ensures(RuntimeManager::validate_invocation, (&m, &demand), r),
    ensures
        r is Ok <==> {
            &&& demand.required_native_host_protocol_version == 2
            &&& says_something(demand.native_host_name@)
            &&& says_something(demand.extension_build_channel@)
            &&& says_something(demand.extension_version@)
            &&& m.extension_id matches Some(own) && own@ == demand.extension_id@
        },
        r matches Err(error) ==> Some(error@) == invocation_fault(
            text_view(m.extension_id),
            demand@,
        ),
{
    lemma_says(demand.native_host_name@);
    lemma_says(demand.extension_build_channel@);
    lemma_says(demand.extension_version@);
}

/// A shutdown begins with the proxy.
pub proof fn a_shutdown_begins_with_the_proxy(m: RuntimeManager, step: Step)
    requires
        call_ensures(RuntimeManager::shutdown, (&m,), step),
    ensures
        step matches Step::LockProxy(work) && work is Shutdown,
{
}

/// The steps of a request carry its own id and parameters: each of the methods
/// on assets and files leads to its own step.
pub proof fn each_method_leads_to_its_own_step(
    m: RuntimeManager,
    id: Json,
    asked: Json,
    params: Map<Seq<char>, JsonView>,
    created: Step,
    appended: Step,
    finished: Step,
    removed: Step,
    opened: Step,
)
    requires
        asked@ == JsonView::Object(params),
        call_ensures(RuntimeManager::create_asset, (&m, id, &asked), created),
        call_ensures(RuntimeManager::append_asset, (&m, id, &asked), appended),
        call_ensures(RuntimeManager::finish_asset, (&m, id, &asked), finished),
        call_ensures(RuntimeManager::remove_asset, (&m, id, &asked), removed),
        call_ensures(RuntimeManager::open_local_file, (&m, id, &asked), opened),
    ensures
        !(created is Reply) ==> (created matches Step::PrepareRoot(
            RootPurpose::Asset { id: job_id, file_name },
        ) && job_id@ == id@ && JsonView::Text(file_name@) == params["fileName"@]),
        !(appended is Reply) ==> (appended matches Step::LockAssets(
            AssetWork::Append { id: job_id, chunk },
        ) && job_id@ == id@ && JsonView::Text(chunk.asset_id@) == params["assetId"@]
            && base64_bytes(params["dataBase64"@]->Text_0) == Some(chunk.data@)),
        !(finished is Reply) ==> (finished matches Step::LockAssets(
            AssetWork::Finish { id: job_id, asset_id },
        ) && job_id@ == id@ && JsonView::Text(asset_id@) == params["assetId"@]),
        !(removed is Reply) ==> (removed matches Step::LockAssets(
            AssetWork::Remove { id: job_id, asset_id },
        ) && job_id@ == id@ && JsonView::Text(asset_id@) == params["assetId"@]),
        !(opened is Reply) ==> (opened matches Step::InspectLocalFile(job) && job.id@ == id@
            && JsonView::Text(job.path@) == params["path"@]),
        created is Reply <==> !(params.contains_key("fileName"@) && params["fileName"@] is Text
            && params["fileName"@]->Text_0.len() > 0 && asset_file_name(
            params["fileName"@]->Text_0,
        )),
        finished is Reply <==> !(params.contains_key("assetId"@) && params["assetId"@] is Text
            && params["assetId"@]->Text_0.len() > 0),
        removed is Reply <==> finished is Reply,
        opened is Reply <==> !(params.contains_key("path"@) && params["path"@] is Text
            && params["path"@]->Text_0.len() > 0 && params["path"@]->Text_0[0] == '/'),
{
    if params.contains_key("path"@) && params["path"@] is Text {
        an_absolute_path_begins_with_a_slash(params["path"@]->Text_0);
    }
}

/// A new asset's file is created under the id that was drawn, in the directory
/// for assets, with the name that was asked for; where none was drawn the
/// caller is told why.
pub proof fn a_new_asset_has_the_id_that_was_drawn(
    m: RuntimeManager,
    id: Json,
    name: &str,
    random: Result<String, String>,
    step: Step,
)
    requires
        call_ensures(RuntimeManager::asset_id_drawn, (&m, id, name, random), step),
    ensures
        random matches Ok(drawn) ==> (step matches Step::CreateAssetFile(job) && job.id@ == id@
            && job.asset_id@ == drawn@ && job.path@ == below(
            asset_dir(m.runtime_root@),
            drawn@ + "-"@ + name@,
        )),
        random matches Err(reason) ==> refuses(
            step,
            id@,
            ErrorView {
                code: 1,
                message: "Failed to create Chrome tab context asset: "@ + reason@,
                kind: Some("app_server_runtime_error"@),
            },
        ),
{
}

/// An answer holds the id and the result that it is made from, and a refusal the
/// id and the code, the message and the kind of its fault.
pub proof fn replies_are_made_of_their_parts(
    id: Json,
    result: Json,
    error: RuntimeError,
    answered: Step,
    refused: Step,
    reply: Json,
)
    requires
        call_ensures(answer, (id, result), answered),
        call_ensures(refuse, (id, error), refused),
        call_ensures(RuntimeError::response, (&error, id), reply),
    ensures
        answered matches Step::Reply(told) && (told@ matches JsonView::Object(members)
            && members["id"@] == id@ && members["result"@] == result@ && !members.contains_key(
            "error"@,
        ) && members["jsonrpc"@] == JsonView::Text("2.0"@)),
        refused matches Step::Reply(told) && told@ == reply@,
        reply@ matches JsonView::Object(members) && members["id"@] == id@
            && !members.contains_key("result"@) && members["jsonrpc"@] == JsonView::Text("2.0"@),
        (reply@->Object_0)["error"@] matches JsonView::Object(told) && told["message"@]
            == JsonView::Text(error.message@) && is_number(told["code"@], error.code as int),
        error.kind matches Some(kind) ==> ((reply@->Object_0)["error"@]->Object_0)["data"@]
            == JsonView::Object(map!["type"@ => JsonView::Text(kind@)]),
        error.kind is None ==> ((reply@->Object_0)["error"@]->Object_0)["data"@] is Null,
{
    a_refusal_is_framed_by_its_parts(id@, error@);
    an_answer_is_framed_by_its_result(id@, result@);
}

/// A chunk has the id and the bytes of its parameters, a file name is accepted
/// where it leads nowhere else, and an asset is told of by its id and path.
pub proof fn chunks_and_assets_are_told_by_what_is_handed_in(
    asked: Json,
    params: Map<Seq<char>, JsonView>,
    chunk: RuntimeResult<AssetChunk>,
    name: &str,
    named: RuntimeResult<()>,
    asset_id: &str,
    path: &[u8],
    told: Json,
)
    requires
        asked@ == JsonView::Object(params),
        call_ensures(asset_chunk, (&asked,), chunk),
        call_ensures(validate_asset_file_name, (name,), named),
        call_ensures(asset_json, (asset_id, path), told),
        valid_utf8(path@),
    ensures
        chunk matches Ok(chunk) ==> JsonView::Text(chunk.asset_id@) == params["assetId"@]
            && base64_bytes(params["dataBase64"@]->Text_0) == Some(chunk.data@)
            && encode_utf8(params["dataBase64"@]->Text_0).len() <= 64 * 1024,
        named is Ok <==> asset_file_name(name@),
        named matches Err(error) ==> error@ == (ErrorView {
            code: -32602,
            message: "Invalid Chrome tab context asset file name"@,
            kind: None,
        }),
        told@ matches JsonView::Object(members) && members["assetId"@] == JsonView::Text(asset_id@)
            && (members["path"@] matches JsonView::Text(text) && encode_utf8(text) == path@),
{
    an_asset_is_told_of_by_its_path(asset_id@, path@);
}

} // verus!
