//! What holds of refusals: which fault is told of where several could be, and
//! what a caller is told of it.
use crate::admission::client_id_of;
use crate::assets::{asset_file_name, base64_bytes};
use crate::decode::text_view;
use crate::error::{ErrorView, RuntimeResult};
use crate::file_laws::{
    a_program_is_told_by_the_digits_of_the_mode, an_absolute_path_begins_with_a_slash, may_run,
    may_write, says_something, writing_is_told_by_the_digits_of_the_mode,
};
use crate::files::{owned_dir_fault, owned_file_fault, FileStat, OwnedFile, UserIds};
use crate::json::{items_view, Json, JsonView};
use crate::manager::{invocation_fault, is_runtime_request, runtime_request, RuntimeManager};
use crate::manifest::{constraints_of, ConstraintsView, EntryView};
use crate::params::{missing_parameter, required_string};
use crate::request_laws::lemma_methods;
use crate::selection::{
    candidates_of, entry_fault, first_fault, listed, manifests_fault, module_dirs_fault,
    read_fault, EntryFacts, ManifestRead,
};
use crate::step_laws::{a_refusal_tells_of_its_fault, tells_fault, tells_misuse};
use crate::steps::{refuses, Step};
use vstd::prelude::*;
use vstd::utf8::encode_utf8;

verus! {

/// A message is a request to the runtime where it is an object with an id, of
/// whatever kind, and a method whose name begins as the runtime's do.
pub proof fn a_request_has_an_id_and_a_method(
    request: Json,
    message: Map<Seq<char>, JsonView>,
    r: bool,
    name: Seq<char>,
)
    requires
        call_ensures(is_runtime_request, (&request,), r),
        request@ == JsonView::Object(message),
    ensures
        r <==> message.contains_key("id"@)
            && message.contains_key("method"@) && (message["method"@] matches JsonView::Text(method)
            && method.len() >= "codexRuntime/"@.len() && method.take(
            "codexRuntime/"@.len() as int,
        ) == "codexRuntime/"@),
        message.contains_key("id"@) && message.contains_key("method"@) && message["method"@]
            == JsonView::Text("codexRuntime/"@ + name) ==> r,
{
    let start = "codexRuntime/"@;
    if message["method"@] is Text {
        let method = message["method"@]->Text_0;
        if start.is_prefix_of(method) {
            assert(method.take(start.len() as int) =~= start);
        }
        if method.len() >= start.len() && method.take(start.len() as int) == start {
            assert(start =~= method.subrange(0, start.len() as int));
        }
        if method == start + name {
            assert(start =~= method.subrange(0, start.len() as int));
        }
    }
}

/// What is no object is no request to the runtime.
pub proof fn only_objects_are_requests(message: JsonView)
    ensures
        runtime_request(message) ==> message is Object,
{
}

/// Whether a parameter that must be text is missing: it is not there, is no
/// text, or is empty.
pub open spec fn lacks(params: Map<Seq<char>, JsonView>, name: Seq<char>) -> bool {
    !params.contains_key(name) || !(params[name] is Text) || params[name]->Text_0.len() == 0
}

/// A text that must be there is the parameter's own, and is never empty.
pub proof fn a_required_text_is_there<'a>(
    asked: &'a Json,
    params: Map<Seq<char>, JsonView>,
    name: &str,
    r: RuntimeResult<&'a str>,
)
    requires
        call_ensures(required_string, (asked, name), r),
        asked@ == JsonView::Object(params),
    ensures
        r is Err <==> lacks(params, name@),
        r matches Ok(text) ==> params[name@] == JsonView::Text(text@) && text@.len() > 0,
        r matches Err(error) ==> error@ == (ErrorView {
            code: -32602,
            message: "Missing required parameter: "@ + name@,
            kind: None,
        }),
{
}

/// A request that lacks a parameter is told which: the first that it lacks.
pub proof fn a_missing_parameter_is_named(
    m: RuntimeManager,
    request: Json,
    message: Map<Seq<char>, JsonView>,
    params: Map<Seq<char>, JsonView>,
    step: Step,
)
    requires
        call_ensures(RuntimeManager::handle_request, (&m, &request), step),
        request@ == JsonView::Object(message),
        message.contains_key("id"@),
        message.contains_key("method"@),
        message.contains_key("params"@),
        message["params"@] == JsonView::Object(params),
    ensures
        message["method"@] == JsonView::Text("codexRuntime/tabContextAsset/create"@) && lacks(
            params,
            "fileName"@,
        ) ==> tells_misuse(step, message["id"@], "Missing required parameter: "@ + "fileName"@),
        message["method"@] == JsonView::Text("codexRuntime/tabContextAsset/appendChunk"@) && lacks(
            params,
            "assetId"@,
        ) ==> tells_misuse(step, message["id"@], "Missing required parameter: "@ + "assetId"@),
        message["method"@] == JsonView::Text("codexRuntime/tabContextAsset/appendChunk"@) && !lacks(
            params,
            "assetId"@,
        ) && lacks(params, "dataBase64"@) ==> tells_misuse(
            step,
            message["id"@],
            "Missing required parameter: "@ + "dataBase64"@,
        ),
        message["method"@] == JsonView::Text("codexRuntime/tabContextAsset/finish"@) && lacks(
            params,
            "assetId"@,
        ) ==> tells_misuse(step, message["id"@], "Missing required parameter: "@ + "assetId"@),
        (message["method"@] == JsonView::Text("codexRuntime/tabContextAsset/abort"@)
            || message["method"@] == JsonView::Text("codexRuntime/tabContextAsset/remove"@))
            && lacks(params, "assetId"@) ==> tells_misuse(
            step,
            message["id"@],
            "Missing required parameter: "@ + "assetId"@,
        ),
        message["method"@] == JsonView::Text("codexRuntime/openLocalFile"@) && lacks(
            params,
            "path"@,
        ) ==> tells_misuse(step, message["id"@], "Missing required parameter: "@ + "path"@),
        (message["method"@] == JsonView::Text("codexRuntime/ensure"@) || message["method"@]
            == JsonView::Text("codexRuntime/restart"@)) && !params.contains_key("constraints"@)
            ==> tells_misuse(
            step,
            message["id"@],
            "Missing required parameter: "@ + "constraints"@,
        ),
{
    lemma_methods();
    lemma_missing(step, message["id"@], "fileName"@);
    lemma_missing(step, message["id"@], "assetId"@);
    lemma_missing(step, message["id"@], "dataBase64"@);
    lemma_missing(step, message["id"@], "path"@);
    lemma_missing(step, message["id"@], "constraints"@);
}

/// A parameter that is missing is told of as a misuse.
proof fn lemma_missing(step: Step, id: JsonView, name: Seq<char>)
    ensures
        refuses(step, id, missing_parameter(name)) ==> tells_misuse(
            step,
            id,
            "Missing required parameter: "@ + name,
        ),
{
    if refuses(step, id, missing_parameter(name)) {
        a_refusal_tells_of_its_fault(step, id, missing_parameter(name));
    }
}

/// A refusal for misuse tells of it.
proof fn lemma_misuse(step: Step, id: JsonView, message: Seq<char>)
    ensures
        refuses(step, id, ErrorView::invalid_params(message)) ==> tells_misuse(step, id, message),
{
    if refuses(step, id, ErrorView::invalid_params(message)) {
        a_refusal_tells_of_its_fault(step, id, ErrorView::invalid_params(message));
    }
}

/// A request whose parameters are there but cannot be used is told so: a file
/// name that leads elsewhere, a chunk that is too long or does not decode, a
/// path that is not absolute, and demands that cannot be read, which a greeting
/// may leave out but not get wrong.
pub proof fn a_useless_parameter_is_refused(
    m: RuntimeManager,
    request: Json,
    message: Map<Seq<char>, JsonView>,
    params: Map<Seq<char>, JsonView>,
    step: Step,
)
    requires
        call_ensures(RuntimeManager::handle_request, (&m, &request), step),
        request@ == JsonView::Object(message),
        message.contains_key("id"@),
        message.contains_key("method"@),
        message.contains_key("params"@),
        message["params"@] == JsonView::Object(params),
    ensures
        message["method"@] == JsonView::Text("codexRuntime/tabContextAsset/create"@) && !lacks(
            params,
            "fileName"@,
        ) && !asset_file_name(params["fileName"@]->Text_0) ==> tells_misuse(
            step,
            message["id"@],
            "Invalid Chrome tab context asset file name"@,
        ),
        message["method"@] == JsonView::Text("codexRuntime/tabContextAsset/appendChunk"@) && !lacks(
            params,
            "assetId"@,
        ) && !lacks(params, "dataBase64"@) && (encode_utf8(params["dataBase64"@]->Text_0).len() > 64
            * 1024 || base64_bytes(params["dataBase64"@]->Text_0) is None) ==> tells_misuse(
            step,
            message["id"@],
            "Invalid Chrome tab context asset chunk"@,
        ),
        message["method"@] == JsonView::Text("codexRuntime/tabContextAsset/appendChunk"@) && !lacks(
            params,
            "assetId"@,
        ) && !lacks(params, "dataBase64"@) && encode_utf8(params["dataBase64"@]->Text_0).len() <= 64
            * 1024 && base64_bytes(params["dataBase64"@]->Text_0) is Some ==> step is LockAssets,
        message["method"@] == JsonView::Text("codexRuntime/openLocalFile"@) && !lacks(
            params,
            "path"@,
        ) && params["path"@]->Text_0[0] != '/' ==> tells_misuse(
            step,
            message["id"@],
            "Local file path must be absolute"@,
        ),
        (message["method"@] == JsonView::Text("codexRuntime/hello"@) || message["method"@]
            == JsonView::Text("codexRuntime/ensure"@) || message["method"@] == JsonView::Text(
            "codexRuntime/restart"@,
        )) && params.contains_key("constraints"@) && constraints_of(params["constraints"@]) is None
            ==> tells_misuse(step, message["id"@], "Invalid Codex runtime constraints"@),
        message["method"@] == JsonView::Text("codexRuntime/hello"@) && params.contains_key(
            "constraints"@,
        ) && constraints_of(params["constraints"@]) is Some ==> step is FindOpener,
{
    lemma_methods();
    lemma_misuse(step, message["id"@], "Invalid Chrome tab context asset file name"@);
    lemma_misuse(step, message["id"@], "Invalid Chrome tab context asset chunk"@);
    lemma_misuse(step, message["id"@], "Local file path must be absolute"@);
    lemma_misuse(step, message["id"@], "Invalid Codex runtime constraints"@);
    if params["path"@] is Text {
        an_absolute_path_begins_with_a_slash(params["path"@]->Text_0);
    }
}

/// A request that leaves its method out is taken as one for no method of the
/// runtime's; one that leaves its parameters out lacks each of them.
pub proof fn what_is_left_out_is_missing(
    m: RuntimeManager,
    request: Json,
    message: Map<Seq<char>, JsonView>,
    step: Step,
)
    requires
        call_ensures(RuntimeManager::handle_request, (&m, &request), step),
        request@ == JsonView::Object(message),
        message.contains_key("id"@),
    ensures
        !message.contains_key("method"@) || !(message["method"@] is Text) ==> tells_fault(
            step,
            message["id"@],
            -32601,
            None,
            "Unsupported native host method: "@,
        ),
        message.contains_key("method"@) && !message.contains_key("params"@) ==> {
            &&& message["method"@] == JsonView::Text("codexRuntime/hello"@) ==> step is FindOpener
            &&& message["method"@] == JsonView::Text("codexRuntime/tabContextAsset/create"@)
                ==> tells_misuse(
                step,
                message["id"@],
                "Missing required parameter: "@ + "fileName"@,
            )
            &&& message["method"@] == JsonView::Text("codexRuntime/tabContextAsset/finish"@)
                ==> tells_misuse(
                step,
                message["id"@],
                "Missing required parameter: "@ + "assetId"@,
            )
            &&& message["method"@] == JsonView::Text("codexRuntime/openLocalFile"@)
                ==> tells_misuse(
                step,
                message["id"@],
                "Missing required parameter: "@ + "path"@,
            )
            &&& message["method"@] == JsonView::Text("codexRuntime/ensure"@) ==> tells_misuse(
                step,
                message["id"@],
                "Missing required parameter: "@ + "constraints"@,
            )
        },
{
    lemma_methods();
    assert("Unsupported native host method: "@ + ""@ =~= "Unsupported native host method: "@) by {
        reveal_strlit("");
    }
    lemma_missing(step, message["id"@], "fileName"@);
    lemma_missing(step, message["id"@], "assetId"@);
    lemma_missing(step, message["id"@], "path"@);
    lemma_missing(step, message["id"@], "constraints"@);
    if !message.contains_key("method"@) || !(message["method"@] is Text) {
        a_refusal_tells_of_its_fault(step, message["id"@], ErrorView::method_not_found(""@));
    }
}

/// A request without an id is answered under null.
pub proof fn a_request_without_an_id_is_answered_under_null(
    m: RuntimeManager,
    request: Json,
    message: Map<Seq<char>, JsonView>,
    step: Step,
)
    requires
        call_ensures(RuntimeManager::handle_request, (&m, &request), step),
        request@ == JsonView::Object(message),
    ensures
        step matches Step::Reply(reply) ==> (reply@ matches JsonView::Object(members)
            && members.contains_key("id"@) && members["id"@] == (if message.contains_key("id"@) {
            message["id"@]
        } else {
            JsonView::Null
        })),
{
}

/// A demand is refused for the first thing that is wrong with it: it asks for
/// another version of the protocol, it leaves something empty, or it is made by
/// another extension, or for a runtime without one. Then only is its client id
/// looked at.
pub proof fn a_demand_is_refused_for_its_first_fault(
    extension_id: Option<Seq<char>>,
    c: ConstraintsView,
)
    ensures
        invocation_fault(extension_id, c) is None <==> c.required_native_host_protocol_version == 2
            && says_something(c.native_host_name) && says_something(c.extension_build_channel)
            && says_something(c.extension_version) && extension_id == Some(c.extension_id),
        c.required_native_host_protocol_version != 2 ==> (invocation_fault(
            extension_id,
            c,
        ) matches Some(e) && e.kind == Some("version_mismatch"@)),
        c.required_native_host_protocol_version == 2 && !(says_something(c.native_host_name)
            && says_something(c.extension_build_channel) && says_something(c.extension_version))
            ==> (invocation_fault(extension_id, c) matches Some(e) && e.kind is None && e.code
            == -32602 && e.message == "Runtime constraints contain empty values"@),
        c.required_native_host_protocol_version == 2 && says_something(c.native_host_name)
            && says_something(c.extension_build_channel) && says_something(c.extension_version)
            && extension_id != Some(c.extension_id) ==> (invocation_fault(
            extension_id,
            c,
        ) matches Some(e) && e.code == 1 && e.kind == Some("no_matching_codex_install"@)
            && e.message == "No compatible Codex app-server entry was found"@),
{
}

/// A side panel's wish with a client id that is none is told so, once nothing
/// else is wrong with it.
pub proof fn a_false_client_id_is_refused(
    m: RuntimeManager,
    id: Json,
    asked: Json,
    step: Step,
    params: Map<Seq<char>, JsonView>,
    c: ConstraintsView,
    restart: bool,
)
    requires
        call_ensures(RuntimeManager::ensure, (&m, id, &asked, restart), step),
        asked@ == JsonView::Object(params),
        params.contains_key("constraints"@),
        constraints_of(params["constraints"@]) == Some(c),
        params.contains_key("clientId"@),
        client_id_of(Some(params["clientId"@])) is None,
    ensures
        invocation_fault(text_view(m.extension_id), c) is None ==> tells_misuse(
            step,
            id@,
            "Invalid clientId"@,
        ),
        invocation_fault(text_view(m.extension_id), c) matches Some(fault) ==> refuses(
            step,
            id@,
            fault,
        ),
{
    lemma_misuse(step, id@, "Invalid clientId"@);
}

/// Whether a manifest file is in order: it is missing, or has the second
/// version.
pub open spec fn in_order(read: ManifestRead) -> bool {
    read is Missing || (read matches ManifestRead::Parsed(manifest) && manifest.schema_version == 2)
}

/// Manifest files without a fault have none, up to each of them.
proof fn lemma_no_fault(reads: Seq<ManifestRead>)
    requires
        forall|i: int| 0 <= i < reads.len() ==> in_order(#[trigger] reads[i]),
    ensures
        first_fault(reads) is None,
    decreases reads.len(),
{
    if reads.len() > 0 {
        let rest = reads.drop_last();
        assert forall|i: int| 0 <= i < rest.len() implies in_order(#[trigger] rest[i]) by {
            assert(rest[i] == reads[i]);
        }
        lemma_no_fault(rest);
        assert(in_order(reads[reads.len() - 1]));
    }
}

/// The first faulty manifest file is told of.
proof fn lemma_first_fault(reads: Seq<ManifestRead>, i: int)
    requires
        0 <= i < reads.len(),
        !in_order(reads[i]),
        forall|j: int| 0 <= j < i ==> in_order(#[trigger] reads[j]),
    ensures
        first_fault(reads) == read_fault(reads[i]),
        first_fault(reads) is Some,
    decreases reads.len(),
{
    let rest = reads.drop_last();
    if i < rest.len() {
        assert(rest[i] == reads[i]);
        assert forall|j: int| 0 <= j < i implies in_order(#[trigger] rest[j]) by {
            assert(rest[j] == reads[j]);
        }
        lemma_first_fault(rest, i);
    } else {
        assert forall|j: int| 0 <= j < rest.len() implies in_order(#[trigger] rest[j]) by {
            assert(rest[j] == reads[j]);
        }
        lemma_no_fault(rest);
    }
}

/// Of faulty manifest files the first is told of: one of another version as
/// such, and any other as invalid.
pub proof fn the_first_faulty_manifest_is_told_of(reads: Seq<ManifestRead>, i: int)
    requires
        0 <= i < reads.len(),
        !in_order(reads[i]),
        forall|j: int| 0 <= j < i ==> in_order(#[trigger] reads[j]),
    ensures
        manifests_fault(reads) == Some(
            ErrorView {
                code: 1,
                kind: Some("manifest_invalid"@),
                message: if reads[i] is Parsed {
                    "Codex Chrome native host manifest must use schemaVersion 2"@
                } else {
                    "Codex Chrome native host v2 manifest is invalid"@
                },
            },
        ),
{
    lemma_first_fault(reads, i);
}

/// Manifest files that are in order are used where there is one at all, and
/// otherwise told to be missing.
pub proof fn manifests_in_order_are_used(reads: Seq<ManifestRead>)
    requires
        forall|i: int| 0 <= i < reads.len() ==> in_order(#[trigger] reads[i]),
    ensures
        manifests_fault(reads) is None <==> exists|i: int|
            0 <= i < reads.len() && (#[trigger] reads[i]) is Parsed,
        manifests_fault(reads) matches Some(e) ==> e == (ErrorView {
            code: 1,
            kind: Some("manifest_missing"@),
            message: "Codex Chrome native host v2 manifest is missing"@,
        }),
{
    lemma_no_fault(reads);
}

/// What manifests list is taken in their order: that of some of them, and then
/// that of the others. A manifest lists its own entries, in its own order.
pub proof fn manifests_are_taken_in_their_order(a: Seq<ManifestRead>, b: Seq<ManifestRead>)
    ensures
        listed(a + b) == listed(a) + listed(b),
        a.len() == 1 ==> listed(a) == (match a[0] {
            ManifestRead::Parsed(manifest) => items_view(manifest.entries@),
            _ => Seq::empty(),
        }),
    decreases b.len(),
{
    if b.len() == 0 {
        assert(a + b =~= a);
        assert(listed(a) + listed(b) =~= listed(a));
    } else {
        assert((a + b).drop_last() =~= a + b.drop_last());
        manifests_are_taken_in_their_order(a, b.drop_last());
        assert(listed(a + b) =~= listed(a) + listed(b));
    }
    if a.len() == 1 {
        assert(a.drop_last().len() == 0);
        assert(listed(a.drop_last()) =~= Seq::empty());
        assert(listed(a) =~= (match a[0] {
            ManifestRead::Parsed(manifest) => items_view(manifest.entries@),
            _ => Seq::empty(),
        }));
    }
}

/// Candidates stand in the order in which the manifests list them.
pub proof fn candidates_stand_as_they_are_listed(
    a: Seq<JsonView>,
    b: Seq<JsonView>,
    c: ConstraintsView,
)
    ensures
        candidates_of(a + b, c) == candidates_of(a, c) + candidates_of(b, c),
    decreases b.len(),
{
    if b.len() == 0 {
        assert(a + b =~= a);
        assert(candidates_of(a, c) + candidates_of(b, c) =~= candidates_of(a, c));
    } else {
        assert((a + b).drop_last() =~= a + b.drop_last());
        assert((a + b).last() == b.last());
        candidates_stand_as_they_are_listed(a, b.drop_last(), c);
        assert(candidates_of(a + b, c) =~= candidates_of(a, c) + candidates_of(b, c));
    }
}

/// The path of an entry that cannot be used, by what it is called.
pub open spec fn unusable(what: Seq<char>) -> ErrorView {
    ErrorView {
        code: 1,
        kind: Some("required_path_missing"@),
        message: "Codex app-server manifest entry is missing required path "@ + what,
    }
}

/// A file that cannot be used is told to be no file to trust, or none that can
/// be run, or one in a directory not to trust, in this order; a directory that
/// cannot be used is told to be none.
pub proof fn a_path_is_refused_for_its_first_fault(
    path: Seq<char>,
    file: OwnedFile,
    executable: bool,
    stat: Option<FileStat>,
    require_user_owner: bool,
    ids: UserIds,
)
    ensures
        owned_file_fault(path, file, executable, ids) == Some(unusable("file"@)) <==> !(path.len()
            > 0 && path[0] == '/' && (file.target matches Some(target) && target.is_file && (
        target.uid == ids.euid || target.uid == 0) && !may_write(target.mode as int % 8) && (
        may_write(target.mode as int / 8 % 8) ==> target.uid == ids.euid && target.gid
            == ids.egid))),
        owned_file_fault(path, file, executable, ids) == Some(unusable("executable"@))
            ==> executable && (file.target matches Some(target) && !may_run(
            target.mode as int % 8,
        ) && !may_run(target.mode as int / 8 % 8) && !may_run(target.mode as int / 64 % 8)),
        owned_file_fault(path, file, executable, ids) matches Some(fault) ==> fault == unusable(
            "file"@,
        ) || fault == unusable("executable"@) || fault == unusable("parent"@),
        owned_file_fault(path, file, executable, ids) == Some(unusable("parent"@)) && executable
            ==> (file.target matches Some(target) && (may_run(target.mode as int % 8) || may_run(
            target.mode as int / 8 % 8,
        ) || may_run(target.mode as int / 64 % 8))),
        owned_dir_fault(path, stat, require_user_owner, ids) matches Some(fault) ==> fault
            == unusable("directory"@),
{
    reveal_strlit("file");
    reveal_strlit("executable");
    reveal_strlit("parent");
    let start = "Codex app-server manifest entry is missing required path "@;
    assert((start + "file"@).len() == start.len() + 4);
    assert((start + "executable"@).len() == start.len() + 10);
    assert((start + "parent"@).len() == start.len() + 6);
    an_absolute_path_begins_with_a_slash(path);
    if let Some(target) = file.target {
        writing_is_told_by_the_digits_of_the_mode(target, ids);
        a_program_is_told_by_the_digits_of_the_mode(target);
    }
}

/// An entry is refused for the first thing that is wrong with it: it leaves
/// something empty, one of its paths cannot be used, in the order of home,
/// resources, program, host, Node, its REPL, browser client and modules, or the
/// running host is another.
pub proof fn an_entry_is_refused_for_its_first_fault(e: EntryView, facts: EntryFacts)
    ensures
        !(says_something(e.entry_id) && says_something(e.install_id) && says_something(
            e.app_version,
        ) && says_something(e.cli_version) && says_something(e.native_host_version))
            ==> entry_fault(e, facts) == Some(
            ErrorView {
                code: 1,
                kind: Some("manifest_invalid"@),
                message: "Matching manifest entry is malformed"@,
            },
        ),
        says_something(e.entry_id) && says_something(e.install_id) && says_something(e.app_version)
            && says_something(e.cli_version) && says_something(e.native_host_version) ==> {
            let home = owned_dir_fault(e.paths.codex_home, facts.codex_home, true, facts.ids);
            let resources = owned_dir_fault(
                e.paths.resources_path,
                facts.resources_path,
                false,
                facts.ids,
            );
            let cli = owned_file_fault(
                e.paths.codex_cli_path,
                facts.codex_cli_path,
                true,
                facts.ids,
            );
            let host = owned_file_fault(
                e.paths.extension_host_path,
                facts.extension_host_path,
                true,
                facts.ids,
            );
            let node = owned_file_fault(e.paths.node_path, facts.node_path, true, facts.ids);
            let modules = module_dirs_fault(
                e.paths.node_module_dirs,
                facts.node_module_dirs@,
                facts.ids,
            );
            &&& home is Some ==> entry_fault(e, facts) == home
            &&& home is None && resources is Some ==> entry_fault(e, facts) == resources
            &&& home is None && resources is None && cli is Some ==> entry_fault(e, facts) == cli
            &&& home is None && resources is None && cli is None && host is Some ==> entry_fault(
                e,
                facts,
            ) == host
            &&& home is None && resources is None && cli is None && host is None && node is Some
                ==> entry_fault(e, facts) == node
            &&& home is None && resources is None && cli is None && host is None && node is None
                ==> (e.paths.node_repl_path matches Some(path) && owned_file_fault(
                path,
                facts.node_repl_path,
                true,
                facts.ids,
            ) is Some ==> entry_fault(e, facts) == owned_file_fault(
                e.paths.node_repl_path->Some_0,
                facts.node_repl_path,
                true,
                facts.ids,
            ))
            &&& home is None && resources is None && cli is None && host is None && node is None
                && e.paths.node_repl_path is None ==> (e.paths.browser_client_path matches Some(
                path,
            ) && owned_file_fault(path, facts.browser_client_path, false, facts.ids) is Some
                ==> entry_fault(e, facts) == owned_file_fault(
                e.paths.browser_client_path->Some_0,
                facts.browser_client_path,
                false,
                facts.ids,
            ))
            &&& home is None && resources is None && cli is None && host is None && node is None
                && e.paths.node_repl_path is None && e.paths.browser_client_path is None && modules
                is Some ==> entry_fault(e, facts) == modules
            &&& home is None && resources is None && cli is None && host is None && node is None
                && e.paths.node_repl_path is None && e.paths.browser_client_path is None && modules
                is None ==> (entry_fault(e, facts) matches Some(fault) ==> fault == (if
                facts.current_host is Some && facts.configured_host is Some {
                ErrorView {
                    code: 1,
                    kind: Some("no_matching_codex_install"@),
                    message: "No compatible Codex app-server entry was found"@,
                }
            } else {
                unusable("extensionHostPath"@)
            }))
        },
{
}

} // verus!
