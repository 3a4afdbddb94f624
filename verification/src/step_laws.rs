//! What holds of the steps that greetings, assets and local files take: what a
//! caller is told when the outside work is done, and what has changed by then.
use crate::assets::{asset_not_found, asset_view, size_after, AssetChunk};
use crate::error::{error_reply, result_reply, ErrorView};
use crate::file_laws::{
    a_program_is_told_by_the_digits_of_the_mode, an_absolute_path_begins_with_a_slash, may_run,
};
use crate::files::{openable_fault, runnable, some_runnable, FileStat};
use crate::json::{Json, JsonView};
use crate::manager::RuntimeManager;
use crate::manifest_laws::is_number;
use crate::request_laws::{
    a_greeting_is_answered_with_what_is_supported, a_refusal_is_framed_by_its_parts,
    an_answer_is_framed_by_its_result, an_asset_is_told_of_by_its_path,
};
use crate::requests::{done_view, hello_view};
use crate::steps::{
    AppendJob, AssetDirJob, AssetWork, CreateJob, FinishJob, OpenJob, Removal, RemoveJob, Step,
};
use vstd::prelude::*;
use vstd::utf8::{encode_utf8, valid_utf8};

verus! {

/// Whether a step tells the caller of a request its result.
pub open spec fn tells(step: Step, id: JsonView, result: JsonView) -> bool {
    &&& step matches Step::Reply(reply)
    &&& reply@ matches JsonView::Object(m)
    &&& m["id"@] == id
    &&& m.contains_key("result"@)
    &&& m["result"@] == result
    &&& !m.contains_key("error"@)
}

/// Whether a step tells the caller of a request of a fault: its code, its kind
/// and its message.
pub open spec fn tells_fault(
    step: Step,
    id: JsonView,
    code: int,
    kind: Option<Seq<char>>,
    message: Seq<char>,
) -> bool {
    &&& step matches Step::Reply(reply)
    &&& reply@ matches JsonView::Object(m)
    &&& m["id"@] == id
    &&& !m.contains_key("result"@)
    &&& m["error"@] matches JsonView::Object(error)
    &&& is_number(error["code"@], code)
    &&& error["message"@] == JsonView::Text(message)
    &&& error["data"@] == (match kind {
        Some(kind) => JsonView::Object(map!["type"@ => JsonView::Text(kind)]),
        None => JsonView::Null,
    })
}

/// Whether a step tells the caller of a request that the runtime itself failed.
pub open spec fn tells_failure(step: Step, id: JsonView, message: Seq<char>) -> bool {
    tells_fault(step, id, 1, Some("app_server_runtime_error"@), message)
}

/// Whether a step tells the caller of a request that its parameters are at
/// fault.
pub open spec fn tells_misuse(step: Step, id: JsonView, message: Seq<char>) -> bool {
    tells_fault(step, id, -32602, None, message)
}

/// A refusal tells of its fault.
pub proof fn a_refusal_tells_of_its_fault(step: Step, id: JsonView, e: ErrorView)
    requires
        i64::MIN <= e.code <= i64::MAX,
        step matches Step::Reply(reply) && reply@ == error_reply(id, e),
    ensures
        tells_fault(step, id, e.code, e.kind, e.message),
        forall|result: JsonView| !tells(step, id, result),
{
    a_refusal_is_framed_by_its_parts(id, e);
}

/// An answer tells its result.
pub proof fn an_answer_tells_its_result(step: Step, id: JsonView, result: JsonView)
    requires
        step matches Step::Reply(reply) && reply@ == result_reply(id, result),
    ensures
        tells(step, id, result),
{
    an_answer_is_framed_by_its_result(id, result);
}

/// A greeting is answered with the method that opens local files where the
/// program for that is in one of the directories: a regular file that somebody
/// may run.
pub proof fn a_greeting_offers_what_can_be_done(
    m: RuntimeManager,
    id: Json,
    found: Vec<Option<FileStat>>,
    version: &str,
    r: Step,
)
    requires
        call_ensures(RuntimeManager::opener_found, (&m, id, &found, version), r),
    ensures
        exists|hello: Map<Seq<char>, JsonView>| #[trigger]
            tells(r, id@, JsonView::Object(hello)) && hello["nativeHostVersion"@]
                == JsonView::Text(version@) && hello["supportedMethods"@] is Array && (
            hello["supportedMethods"@]->Array_0.len() == 1 <==> exists|i: int|
                0 <= i < found@.len() && ((#[trigger] found@[i]) matches Some(stat) && stat.is_file
                    && (may_run(stat.mode as int % 8) || may_run(stat.mode as int / 8 % 8)
                    || may_run(stat.mode as int / 64 % 8)))),
{
    let opens = some_runnable(found@);
    let view = hello_view(version@, opens);
    a_greeting_is_answered_with_what_is_supported(version@, opens);
    an_answer_tells_its_result(r, id@, view);
    assert(tells(r, id@, JsonView::Object(view->Object_0)));
    assert forall|i: int| 0 <= i < found@.len() implies runnable(#[trigger] found@[i]) == (
    found@[i] matches Some(stat) && stat.is_file && (may_run(stat.mode as int % 8) || may_run(
        stat.mode as int / 8 % 8,
    ) || may_run(stat.mode as int / 64 % 8))) by {
        if let Some(stat) = found@[i] {
            a_program_is_told_by_the_digits_of_the_mode(stat);
        }
    }
    if opens {
        let i = choose|i: int| 0 <= i < found@.len() && runnable(#[trigger] found@[i]);
        assert(found@[i] is Some);
    } else {
        assert forall|i: int| 0 <= i < found@.len() implies !((#[trigger] found@[i]) matches Some(
            stat,
        ) && stat.is_file && (may_run(stat.mode as int % 8) || may_run(stat.mode as int / 8 % 8)
            || may_run(stat.mode as int / 64 % 8))) by {
            assert(!runnable(found@[i]));
        }
    }
}

/// A new asset is asked for where its directory could be made, under the name
/// that was asked for, and a failure to make it is told.
pub proof fn an_asset_needs_its_directory(
    m: RuntimeManager,
    job: AssetDirJob,
    outcome: Result<(), String>,
    r: Step,
)
    requires
        call_ensures(RuntimeManager::asset_dir_prepared, (&m, job, outcome), r),
    ensures
        outcome is Ok ==> (r matches Step::LockAssets(AssetWork::Create { id, file_name }) && id
            == job.id && file_name == job.file_name),
        outcome matches Err(error) ==> tells_failure(
            r,
            job.id@,
            "Failed to create Chrome tab context asset directory: "@ + error@,
        ),
{
    if let Err(error) = outcome {
        a_refusal_tells_of_its_fault(
            r,
            job.id@,
            ErrorView::internal("Failed to create Chrome tab context asset directory: "@ + error@),
        );
    }
}

/// An asset whose file was created is there, empty and not complete, with no
/// other asset changed, and its caller is told its id and path. One whose file
/// was not created leaves everything as it was.
pub proof fn a_created_asset_is_empty(
    m: &mut RuntimeManager,
    job: CreateJob,
    outcome: Result<(), String>,
    r: Step,
    other: Seq<char>,
)
    requires
        call_ensures(RuntimeManager::asset_file_created, (m, job, outcome), r),
        valid_utf8(job.path@),
        other != job.asset_id@,
    ensures
        outcome is Ok ==> {
            &&& final(m).assets@.contains_key(job.asset_id@)
            &&& final(m).assets@[job.asset_id@].size == 0
            &&& !final(m).assets@[job.asset_id@].finished
            &&& final(m).assets@[job.asset_id@].path@ == job.path@
            &&& final(m).assets@.contains_key(other) == old(m).assets@.contains_key(other)
            &&& final(m).assets@[other] == old(m).assets@[other]
            &&& exists|told: Map<Seq<char>, JsonView>| #[trigger]
                tells(r, job.id@, JsonView::Object(told)) && told["assetId"@] == JsonView::Text(
                    job.asset_id@,
                ) && (told["path"@] matches JsonView::Text(text) && encode_utf8(text) == job.path@)
        },
        outcome matches Err(error) ==> final(m).assets@ == old(m).assets@ && tells_failure(
            r,
            job.id@,
            "Failed to create Chrome tab context asset: "@ + error@,
        ),
{
    match outcome {
        Ok(_) => {
            let view = asset_view(job.asset_id@, job.path@);
            an_asset_is_told_of_by_its_path(job.asset_id@, job.path@);
            an_answer_tells_its_result(r, job.id@, view);
            assert(tells(r, job.id@, JsonView::Object(view->Object_0)));
        },
        Err(error) => {
            a_refusal_tells_of_its_fault(
                r,
                job.id@,
                ErrorView::internal("Failed to create Chrome tab context asset: "@ + error@),
            );
        },
    }
}

/// A chunk that was written gives its asset the size that was worked out, and
/// changes nothing else of it and no other asset. One that was not written
/// leaves everything as it was.
pub proof fn a_written_chunk_counts(
    m: &mut RuntimeManager,
    job: AppendJob,
    outcome: Result<(), String>,
    r: Step,
    asset_id: Seq<char>,
)
    requires
        call_ensures(RuntimeManager::asset_written, (m, job, outcome), r),
    ensures
        final(m).assets@.contains_key(asset_id) <==> old(m).assets@.contains_key(asset_id),
        old(m).assets@.contains_key(asset_id) ==> {
            &&& final(m).assets@[asset_id].path == old(m).assets@[asset_id].path
            &&& final(m).assets@[asset_id].finished == old(m).assets@[asset_id].finished
            &&& final(m).assets@[asset_id].size == (if outcome is Ok && asset_id
                == job.chunk.asset_id@ {
                job.next_size
            } else {
                old(m).assets@[asset_id].size
            })
        },
        outcome is Ok ==> tells(r, job.id@, JsonView::Object(map!["ok"@ => JsonView::Bool(true)])),
        outcome matches Err(error) ==> tells_failure(
            r,
            job.id@,
            "Failed to write Chrome tab context asset: "@ + error@,
        ),
{
    match outcome {
        Ok(_) => {
            an_answer_tells_its_result(r, job.id@, done_view());
        },
        Err(error) => {
            a_refusal_tells_of_its_fault(
                r,
                job.id@,
                ErrorView::internal("Failed to write Chrome tab context asset: "@ + error@),
            );
        },
    }
}

/// An asset whose file was brought to disk is complete from then on; its path
/// and its size stay, no other asset changes, and its caller is told its id and
/// path. One that is gone by then is told to be.
pub proof fn a_synced_asset_is_complete(
    m: &mut RuntimeManager,
    job: FinishJob,
    outcome: Result<(), String>,
    r: Step,
    asset_id: Seq<char>,
)
    requires
        old(m).wf(),
        call_ensures(RuntimeManager::asset_synced, (m, job, outcome), r),
    ensures
        final(m).assets@.contains_key(asset_id) <==> old(m).assets@.contains_key(asset_id),
        old(m).assets@.contains_key(asset_id) ==> {
            &&& final(m).assets@[asset_id].path == old(m).assets@[asset_id].path
            &&& final(m).assets@[asset_id].size == old(m).assets@[asset_id].size
            &&& final(m).assets@[asset_id].finished <==> old(m).assets@[asset_id].finished || (
            outcome is Ok && asset_id == job.asset_id@)
        },
        outcome is Ok && old(m).assets@.contains_key(job.asset_id@) ==> exists|
            told: Map<Seq<char>, JsonView>,
        | #[trigger]
            tells(r, job.id@, JsonView::Object(told)) && told["assetId"@] == JsonView::Text(
                job.asset_id@,
            ) && (told["path"@] matches JsonView::Text(text) && encode_utf8(text)
                == old(m).assets@[job.asset_id@].path@),
        outcome is Ok && !old(m).assets@.contains_key(job.asset_id@) ==> tells_misuse(
            r,
            job.id@,
            "Chrome tab context asset was not found"@,
        ),
        outcome matches Err(error) ==> tells_failure(
            r,
            job.id@,
            "Failed to secure Chrome tab context asset: "@ + error@,
        ),
{
    match outcome {
        Ok(_) => {
            if old(m).assets@.contains_key(job.asset_id@) {
                let path = old(m).assets@[job.asset_id@].path@;
                let view = asset_view(job.asset_id@, path);
                an_asset_is_told_of_by_its_path(job.asset_id@, path);
                an_answer_tells_its_result(r, job.id@, view);
                assert(tells(r, job.id@, JsonView::Object(view->Object_0)));
            } else {
                a_refusal_tells_of_its_fault(r, job.id@, asset_not_found());
            }
        },
        Err(error) => {
            a_refusal_tells_of_its_fault(
                r,
                job.id@,
                ErrorView::internal("Failed to secure Chrome tab context asset: "@ + error@),
            );
        },
    }
}

/// A removal is told to be done where the file is gone, whether it was removed
/// or was not there, and otherwise to have failed.
pub proof fn a_file_that_is_gone_is_removed(
    m: RuntimeManager,
    job: RemoveJob,
    removal: Removal,
    r: Step,
)
    requires
        call_ensures(RuntimeManager::asset_file_removed, (&m, job, removal), r),
    ensures
        removal is Removed || removal is Missing ==> tells(
            r,
            job.id@,
            JsonView::Object(map!["ok"@ => JsonView::Bool(true)]),
        ),
        removal matches Removal::Failed(error) ==> tells_failure(
            r,
            job.id@,
            "Failed to remove Chrome tab context asset: "@ + error@,
        ),
{
    match removal {
        Removal::Failed(error) => {
            a_refusal_tells_of_its_fault(
                r,
                job.id@,
                ErrorView::internal("Failed to remove Chrome tab context asset: "@ + error@),
            );
        },
        _ => {
            an_answer_tells_its_result(r, job.id@, done_view());
        },
    }
}

/// A local file is opened where nothing is wrong with it, under the path that
/// was asked for; otherwise the caller is told of the fault, as a misuse. Once
/// the program is started the caller is told an empty object.
pub proof fn a_local_file_is_opened_where_nothing_is_wrong(
    m: RuntimeManager,
    job: OpenJob,
    stat: Option<FileStat>,
    outcome: Result<(), String>,
    inspected: Step,
    opened: Step,
)
    requires
        call_ensures(RuntimeManager::local_file_inspected, (&m, job, &stat), inspected),
        call_ensures(RuntimeManager::local_file_opened, (&m, job, outcome), opened),
    ensures
        openable_fault(job.path@, stat) is None ==> inspected == Step::OpenLocalFile(job),
        openable_fault(job.path@, stat) matches Some(fault) ==> tells_misuse(
            inspected,
            job.id@,
            fault.message,
        ),
        outcome is Ok ==> tells(
            opened,
            job.id@,
            JsonView::Object(Map::<Seq<char>, JsonView>::empty()),
        ),
        outcome matches Err(error) ==> tells_failure(
            opened,
            job.id@,
            "Failed to open local file: "@ + error@,
        ),
{
    if let Some(fault) = openable_fault(job.path@, stat) {
        a_refusal_tells_of_its_fault(inspected, job.id@, fault);
    }
    match outcome {
        Ok(_) => {
            an_answer_tells_its_result(
                opened,
                job.id@,
                JsonView::Object(Map::<Seq<char>, JsonView>::empty()),
            );
        },
        Err(error) => {
            a_refusal_tells_of_its_fault(
                opened,
                job.id@,
                ErrorView::internal("Failed to open local file: "@ + error@),
            );
        },
    }
}

/// A local file is refused for the first thing that is wrong with it: its path
/// is not absolute, it is not there, it is a link, it is no regular file, or it
/// could be run.
pub proof fn a_local_file_is_refused_for_its_first_fault(path: Seq<char>, stat: Option<FileStat>)
    ensures
        !(path.len() > 0 && path[0] == '/') ==> openable_fault(path, stat) == Some(
            ErrorView {
                code: -32602,
                message: "Local file path must be absolute"@,
                kind: None,
            },
        ),
        path.len() > 0 && path[0] == '/' ==> match stat {
            None => openable_fault(path, stat) == Some(
                ErrorView { code: -32602, message: "Local file does not exist"@, kind: None },
            ),
            Some(stat) => {
                &&& stat.is_symlink ==> openable_fault(path, Some(stat)) == Some(
                    ErrorView {
                        code: -32602,
                        message: "Opening symbolic links is not supported"@,
                        kind: None,
                    },
                )
                &&& !stat.is_symlink && !stat.is_file ==> openable_fault(path, Some(stat)) == Some(
                    ErrorView { code: -32602, message: "Invalid local file path"@, kind: None },
                )
                &&& !stat.is_symlink && stat.is_file ==> match openable_fault(path, Some(stat)) {
                    None => true,
                    Some(fault) => fault.code == -32602 && fault.message
                        == "Opening executable files is not supported"@ && fault.kind is None,
                }
            },
        },
{
    an_absolute_path_begins_with_a_slash(path);
}

/// An asset is removed alone: the others stay, and the file that is removed is
/// its own. One that is not there is told to be missing, as is one that is to
/// be completed.
pub proof fn an_asset_is_removed_alone(
    m: &mut RuntimeManager,
    id: Json,
    asset_id: String,
    step: Step,
    other: Seq<char>,
)
    requires
        call_ensures(RuntimeManager::assets_locked, (m, AssetWork::Remove { id, asset_id }), step),
    ensures
        !final(m).assets@.contains_key(asset_id@),
        other != asset_id@ ==> final(m).assets@.contains_key(other)
            == old(m).assets@.contains_key(other) && final(m).assets@[other]
            == old(m).assets@[other],
        old(m).assets@.contains_key(asset_id@) ==> (step matches Step::RemoveAssetFile(job)
            && job.id == id && job.path == old(m).assets@[asset_id@].path),
        !old(m).assets@.contains_key(asset_id@) ==> tells_misuse(
            step,
            id@,
            "Chrome tab context asset was not found"@,
        ),
{
    if !old(m).assets@.contains_key(asset_id@) {
        a_refusal_tells_of_its_fault(step, id@, asset_not_found());
    }
}

/// An asset that is there is brought to disk before it is complete, and one
/// that is not there is told to be missing.
pub proof fn an_asset_is_synced_before_it_is_complete(
    m: &mut RuntimeManager,
    id: Json,
    asset_id: String,
    step: Step,
)
    requires
        call_ensures(RuntimeManager::assets_locked, (m, AssetWork::Finish { id, asset_id }), step),
    ensures
        *final(m) == *old(m),
        old(m).assets@.contains_key(asset_id@) ==> (step matches Step::SyncAsset(job)
            && job.id == id
            && job.asset_id == asset_id),
        !old(m).assets@.contains_key(asset_id@) ==> tells_misuse(
            step,
            id@,
            "Chrome tab context asset was not found"@,
        ),
{
    if !old(m).assets@.contains_key(asset_id@) {
        a_refusal_tells_of_its_fault(step, id@, asset_not_found());
    }
}

/// A chunk is written before it counts, and one that is refused is told why.
pub proof fn a_chunk_is_written_before_it_counts(
    m: &mut RuntimeManager,
    id: Json,
    chunk: AssetChunk,
    step: Step,
)
    requires
        call_ensures(RuntimeManager::assets_locked, (m, AssetWork::Append { id, chunk }), step),
    ensures
        *final(m) == *old(m),
        step matches Step::WriteAsset(job) ==> job.id == id && job.chunk == chunk
            && old(m).assets@.contains_key(chunk.asset_id@)
            && !old(m).assets@[chunk.asset_id@].finished
            && job.next_size == old(m).assets@[chunk.asset_id@].size + chunk.data@.len(),
        !old(m).assets@.contains_key(chunk.asset_id@) ==> tells_misuse(
            step,
            id@,
            "Chrome tab context asset was not found"@,
        ),
        old(m).assets@.contains_key(chunk.asset_id@) && old(m).assets@[chunk.asset_id@].finished
            ==> tells_misuse(step, id@, "Chrome tab context asset is already finished"@),
        old(m).assets@.contains_key(chunk.asset_id@) && !old(m).assets@[chunk.asset_id@].finished
            && old(m).assets@[chunk.asset_id@].size + chunk.data@.len() > 64 * 1024 * 1024
            ==> tells_misuse(step, id@, "Chrome tab context asset is too large"@),
{
    if let Err(e) = size_after(
        old(m).assets@,
        chunk.asset_id@,
        chunk.data@.len(),
    ) {
        a_refusal_tells_of_its_fault(step, id@, e);
    }
}

/// A runtime begins with nothing: no asset, no app server and no proxy.
pub proof fn a_runtime_begins_with_nothing(
    extension_id: Option<String>,
    root: Vec<u8>,
    manifests: Option<Vec<Vec<u8>>>,
    r: RuntimeManager,
    name: Seq<char>,
)
    requires
        call_ensures(RuntimeManager::with_runtime_root, (extension_id, root, manifests), r),
    ensures
        !r.assets@.contains_key(name),
        !r.processes@.contains_key(name),
        r.proxy is None,
        r.extension_id == extension_id,
        r.runtime_root == root,
        r.manifest_paths_override == manifests,
{
}

/// Work on assets changes nothing but the assets.
pub proof fn locked_assets_change_alone(
    m: &mut RuntimeManager,
    work: AssetWork,
    r: Step,
)
    requires
        call_ensures(RuntimeManager::assets_locked, (m, work), r),
    ensures
        final(m).extension_id == old(m).extension_id,
        final(m).manifest_paths_override == old(m).manifest_paths_override,
        final(m).processes == old(m).processes,
        final(m).proxy == old(m).proxy,
        final(m).runtime_root == old(m).runtime_root,
{
}

/// Creating an asset changes nothing but the assets.
pub proof fn a_created_asset_changes_assets_alone(
    m: &mut RuntimeManager,
    job: CreateJob,
    outcome: Result<(), String>,
    r: Step,
)
    requires
        call_ensures(RuntimeManager::asset_file_created, (m, job, outcome), r),
    ensures
        final(m).extension_id == old(m).extension_id,
        final(m).manifest_paths_override == old(m).manifest_paths_override,
        final(m).processes == old(m).processes,
        final(m).proxy == old(m).proxy,
        final(m).runtime_root == old(m).runtime_root,
{
}

/// Writing to an asset changes nothing but the assets.
pub proof fn a_written_asset_changes_assets_alone(
    m: &mut RuntimeManager,
    job: AppendJob,
    outcome: Result<(), String>,
    r: Step,
)
    requires
        call_ensures(RuntimeManager::asset_written, (m, job, outcome), r),
    ensures
        final(m).extension_id == old(m).extension_id,
        final(m).manifest_paths_override == old(m).manifest_paths_override,
        final(m).processes == old(m).processes,
        final(m).proxy == old(m).proxy,
        final(m).runtime_root == old(m).runtime_root,
{
}

/// Completing an asset changes nothing but the assets.
pub proof fn a_synced_asset_changes_assets_alone(
    m: &mut RuntimeManager,
    job: FinishJob,
    outcome: Result<(), String>,
    r: Step,
)
    requires
        call_ensures(RuntimeManager::asset_synced, (m, job, outcome), r),
    ensures
        final(m).extension_id == old(m).extension_id,
        final(m).manifest_paths_override == old(m).manifest_paths_override,
        final(m).processes == old(m).processes,
        final(m).proxy == old(m).proxy,
        final(m).runtime_root == old(m).runtime_root,
{
}

/// A shutdown leaves no asset, and ends with the runtime directory.
pub proof fn a_shutdown_ends_with_the_root(m: &mut RuntimeManager, r: Step, name: Seq<char>)
    requires
        call_ensures(RuntimeManager::assets_locked, (m, AssetWork::Shutdown), r),
    ensures
        !final(m).assets@.contains_key(name),
        r matches Step::RemoveRoot(root) && root@ == old(m).runtime_root@,
{
}

} // verus!
