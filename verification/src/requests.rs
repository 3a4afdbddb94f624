//! How greetings, assets and local files are dealt with, step by step.
use crate::assets::{
    asset_file_path, asset_json, asset_not_found, asset_not_found_error, asset_path, asset_view,
    next_size, set_finished, set_size, size_after, with_finished, with_size, TabContextAsset,
    MAX_ACTIVE_ASSETS, MAX_ASSET_BYTES,
};
use crate::config::{text_array, texts_json};
use crate::decode::texts_view;
use crate::encode::{drawn_or_not, random_hex};
use crate::error::{ErrorView, RuntimeError};
use crate::files::{
    executable_in_path, openable_fault, some_runnable, validate_openable_file, FileStat,
};
use crate::json::{items_view, Json, JsonNumber, JsonView, Members};
use crate::manager::{RuntimeManager, OPEN_LOCAL_FILE_METHOD};
use crate::manifest::{MANIFEST_SCHEMA_VERSION, NATIVE_HOST_PROTOCOL_VERSION};
use crate::steps::{
    answer, answers, refuse, refuses, request_of, AppendJob, AssetDirJob, AssetWork, CreateJob,
    FinishJob, OpenJob, Removal, RemoveJob, Step,
};
use vstd::prelude::*;
use vstd::slice::slice_to_vec;
use vstd::utf8::valid_utf8;

verus! {

/// What the extension is told of the native host.
pub open spec fn hello_view(native_host_version: Seq<char>, opens_files: bool) -> JsonView {
    JsonView::Object(
        map![
            "manifestSchemaVersion"@ => JsonView::Number(
                JsonNumber::PosInt(MANIFEST_SCHEMA_VERSION as u64),
            ),
            "nativeHostProtocolVersion"@ => JsonView::Number(
                JsonNumber::PosInt(NATIVE_HOST_PROTOCOL_VERSION as u64),
            ),
            "nativeHostVersion"@ => JsonView::Text(native_host_version),
            "supportedMethods"@ => text_array(
                if opens_files {
                    seq![OPEN_LOCAL_FILE_METHOD@]
                } else {
                    Seq::empty()
                },
            ),
            "supportedProtocolVersions"@ => JsonView::Array(
                seq![JsonView::Number(JsonNumber::PosInt(NATIVE_HOST_PROTOCOL_VERSION as u64))],
            ),
        ],
    )
}

/// The answer of something that was done.
pub open spec fn done_view() -> JsonView {
    JsonView::Object(map!["ok"@ => JsonView::Bool(true)])
}

/// The answer of something that was done.
fn done_json() -> (r: Json)
    ensures
        r@ == done_view(),
{
    let mut done = Members::new();
    done.put("ok", Json::Bool(true));
    done.object()
}

/// The file of a new asset is to be created under an id that was drawn, or
/// none could be drawn.
pub open spec fn asset_drawn(
    step: Step,
    root: Seq<u8>,
    id: JsonView,
    file_name: Seq<char>,
    random: Result<Seq<char>, Seq<char>>,
) -> bool {
    match random {
        Ok(asset_id) => {
            &&& step matches Step::CreateAssetFile(job)
            &&& job.id@ == id
            &&& job.asset_id@ == asset_id
            &&& job.path@ == asset_path(root, asset_id, file_name)
        },
        Err(reason) => refuses(
            step,
            id,
            ErrorView::internal("Failed to create Chrome tab context asset: "@ + reason),
        ),
    }
}

/// What comes of touching the assets while nothing else does.
pub open spec fn assets_worked(
    pre: RuntimeManager,
    work: AssetWork,
    step: Step,
    post: RuntimeManager,
) -> bool {
    match work {
        AssetWork::Create { id, file_name } => {
            &&& post == pre
            &&& if pre.assets@.len() >= MAX_ACTIVE_ASSETS {
                refuses(
                    step,
                    id@,
                    ErrorView::internal("Too many active Chrome tab context assets"@),
                )
            } else {
                exists|random: Result<Seq<char>, Seq<char>>| #[trigger]
                    drawn_or_not(random, 16) && asset_drawn(
                        step,
                        pre.runtime_root@,
                        id@,
                        file_name@,
                        random,
                    )
            }
        },
        AssetWork::Append { id, chunk } => {
            &&& post == pre
            &&& match size_after(
                pre.assets@,
                chunk.asset_id@,
                chunk.data@.len(),
            ) {
                Ok(size) => step matches Step::WriteAsset(job) && job.id == id && job.chunk
                    == chunk && job.next_size == size,
                Err(e) => refuses(step, id@, e),
            }
        },
        AssetWork::Finish { id, asset_id } => {
            &&& post == pre
            &&& if pre.assets@.contains_key(asset_id@) {
                step == Step::SyncAsset(FinishJob { id, asset_id })
            } else {
                refuses(step, id@, asset_not_found())
            }
        },
        AssetWork::Remove { id, asset_id } => {
            &&& post.assets@ == pre.assets@.remove(asset_id@)
            &&& if pre.assets@.contains_key(asset_id@) {
                step == Step::RemoveAssetFile(
                    RemoveJob {
                        id,
                        asset_id,
                        path: pre.assets@[asset_id@].path,
                    },
                )
            } else {
                refuses(step, id@, asset_not_found())
            }
        },
        AssetWork::Shutdown => {
            &&& post.assets@ == Map::<Seq<char>, TabContextAsset>::empty()
            &&& step matches Step::RemoveRoot(root) && root@ == pre.runtime_root@
        },
    }
}

impl RuntimeManager {
    /// The program that opens files was looked for in the directories that
    /// programs are in; the greeting is answered.
    pub fn opener_found(
        &self,
        id: Json,
        found: &Vec<Option<FileStat>>,
        native_host_version: &str,
    ) -> (r: Step)
        ensures
            request_of(r) == Some(id@),
            answers(r, id@, hello_view(native_host_version@, some_runnable(found@))),
    {
        let mut supported: Vec<String> = Vec::new();
        let opens_files = executable_in_path(found);
        if opens_files {
            supported.push(OPEN_LOCAL_FILE_METHOD.to_owned());
        }
        assert(texts_view(supported@) =~= if opens_files {
            seq![OPEN_LOCAL_FILE_METHOD@]
        } else {
            Seq::empty()
        });
        let mut versions: Vec<Json> = Vec::new();
        versions.push(Json::unsigned(NATIVE_HOST_PROTOCOL_VERSION as u64));
        proof {
            reveal_with_fuel(items_view, 2);
            assert(versions@.drop_last() =~= Seq::empty());
            assert(items_view(versions@) =~= seq![
                JsonView::Number(JsonNumber::PosInt(NATIVE_HOST_PROTOCOL_VERSION as u64)),
            ]);
        }
        let mut hello = Members::new();
        hello.put("manifestSchemaVersion", Json::unsigned(MANIFEST_SCHEMA_VERSION as u64));
        hello.put("nativeHostProtocolVersion", Json::unsigned(NATIVE_HOST_PROTOCOL_VERSION as u64));
        hello.put("nativeHostVersion", Json::text(native_host_version));
        hello.put("supportedMethods", texts_json(&supported));
        hello.put("supportedProtocolVersions", Json::Array(versions));
        answer(id, hello.object())
    }

    /// The directory for assets was made, or not.
    pub fn asset_dir_prepared(&self, job: AssetDirJob, outcome: Result<(), String>) -> (r: Step)
        ensures
            request_of(r) == Some(job.id@),
            match outcome {
                Ok(_) => r == Step::LockAssets(
                    AssetWork::Create { id: job.id, file_name: job.file_name },
                ),
                Err(error) => refuses(
                    r,
                    job.id@,
                    ErrorView::internal(
                        "Failed to create Chrome tab context asset directory: "@ + error@,
                    ),
                ),
            },
    {
        match outcome {
            Ok(()) => Step::LockAssets(AssetWork::Create { id: job.id, file_name: job.file_name }),
            Err(error) => refuse(
                job.id,
                RuntimeError::failure(
                    "Failed to create Chrome tab context asset directory: ",
                    error.as_str(),
                ),
            ),
        }
    }

    /// An id was drawn for a new asset, or could not be.
    pub fn asset_id_drawn(&self, id: Json, file_name: &str, random: Result<String, String>) -> (r:
        Step)
        ensures
            request_of(r) == Some(id@),
            asset_drawn(
                r,
                self.runtime_root@,
                id@,
                file_name@,
                match random {
                    Ok(asset_id) => Ok(asset_id@),
                    Err(error) => Err(error@),
                },
            ),
    {
        match random {
            Ok(asset_id) => {
                let path = asset_file_path(
                    self.runtime_root.as_slice(),
                    asset_id.as_str(),
                    file_name,
                );
                Step::CreateAssetFile(CreateJob { id, asset_id, path })
            },
            Err(error) => refuse(
                id,
                RuntimeError::failure(
                    "Failed to create Chrome tab context asset: ",
                    error.as_str(),
                ),
            ),
        }
    }

    /// Nothing else touches the assets now.
    pub fn assets_locked(&mut self, work: AssetWork) -> (r: Step)
        requires
            old(self).wf(),
        ensures
            request_of(r) == work.id(),
            final(self).wf(),
            final(self).same_but_assets(*old(self)),
            assets_worked(*old(self), work, r, *final(self)),
    {
        match work {
            AssetWork::Create { id, file_name } => {
                if self.assets.len() >= MAX_ACTIVE_ASSETS {
                    return refuse(
                        id,
                        RuntimeError::internal("Too many active Chrome tab context assets"),
                    );
                }
                let random = random_hex(16);
                assert(drawn_or_not(
                    match random {
                        Ok(s) => Ok(s@),
                        Err(error) => Err(error@),
                    },
                    16,
                ));
                self.asset_id_drawn(id, file_name.as_str(), random)
            },
            AssetWork::Append { id, chunk } => {
                match next_size(&self.assets, chunk.asset_id.as_str(), chunk.data.len()) {
                    Ok(next_size) => Step::WriteAsset(AppendJob { id, chunk, next_size }),
                    Err(error) => refuse(id, error),
                }
            },
            AssetWork::Finish { id, asset_id } => match self.assets.get(asset_id.as_str()) {
                Some(_) => Step::SyncAsset(FinishJob { id, asset_id }),
                None => refuse(id, asset_not_found_error()),
            },
            AssetWork::Remove { id, asset_id } => match self.assets.remove(asset_id.as_str()) {
                Some(asset) => Step::RemoveAssetFile(RemoveJob { id, asset_id, path: asset.path }),
                None => refuse(id, asset_not_found_error()),
            },
            AssetWork::Shutdown => {
                self.assets.take_all();
                Step::RemoveRoot(slice_to_vec(self.runtime_root.as_slice()))
            },
        }
    }

    /// The file of a new asset was created, or not. The caller is told its
    /// path, which has to be text for that.
    pub fn asset_file_created(&mut self, job: CreateJob, outcome: Result<(), String>) -> (r: Step)
        requires
            old(self).wf(),
            old(self).assets@.len() < MAX_ACTIVE_ASSETS,
            outcome is Ok ==> valid_utf8(job.path@),
        ensures
            request_of(r) == Some(job.id@),
            final(self).wf(),
            final(self).same_but_assets(*old(self)),
            match outcome {
                Ok(_) => {
                    &&& final(self).assets@ == old(self).assets@.insert(
                        job.asset_id@,
                        TabContextAsset { finished: false, path: job.path, size: 0 },
                    )
                    &&& answers(r, job.id@, asset_view(job.asset_id@, job.path@))
                },
                Err(error) => {
                    &&& *final(self) == *old(self)
                    &&& refuses(
                        r,
                        job.id@,
                        ErrorView::internal(
                            "Failed to create Chrome tab context asset: "@ + error@,
                        ),
                    )
                },
            },
    {
        match outcome {
            Ok(()) => {
                let told = asset_json(job.asset_id.as_str(), job.path.as_slice());
                let asset = TabContextAsset { finished: false, path: job.path, size: 0 };
                self.assets.insert(job.asset_id, asset);
                answer(job.id, told)
            },
            Err(error) => refuse(
                job.id,
                RuntimeError::failure(
                    "Failed to create Chrome tab context asset: ",
                    error.as_str(),
                ),
            ),
        }
    }

    /// A chunk was written to an asset, or not.
    pub fn asset_written(&mut self, job: AppendJob, outcome: Result<(), String>) -> (r: Step)
        requires
            old(self).wf(),
            job.next_size <= MAX_ASSET_BYTES,
        ensures
            request_of(r) == Some(job.id@),
            final(self).wf(),
            final(self).same_but_assets(*old(self)),
            match outcome {
                Ok(_) => {
                    &&& final(self).assets@ == with_size(
                        old(self).assets@,
                        job.chunk.asset_id@,
                        job.next_size,
                    )
                    &&& answers(r, job.id@, done_view())
                },
                Err(error) => {
                    &&& *final(self) == *old(self)
                    &&& refuses(
                        r,
                        job.id@,
                        ErrorView::internal(
                            "Failed to write Chrome tab context asset: "@ + error@,
                        ),
                    )
                },
            },
    {
        match outcome {
            Ok(()) => {
                set_size(&mut self.assets, job.chunk.asset_id.as_str(), job.next_size);
                answer(job.id, done_json())
            },
            Err(error) => refuse(
                job.id,
                RuntimeError::failure("Failed to write Chrome tab context asset: ", error.as_str()),
            ),
        }
    }

    /// An asset's file was brought to disk, or not.
    pub fn asset_synced(&mut self, job: FinishJob, outcome: Result<(), String>) -> (r: Step)
        requires
            old(self).wf(),
        ensures
            request_of(r) == Some(job.id@),
            final(self).wf(),
            final(self).same_but_assets(*old(self)),
            match outcome {
                Ok(_) => {
                    &&& final(self).assets@ == with_finished(old(self).assets@, job.asset_id@)
                    &&& if old(self).assets@.contains_key(job.asset_id@) {
                        answers(
                            r,
                            job.id@,
                            asset_view(
                                job.asset_id@,
                                old(self).assets@[job.asset_id@].path@,
                            ),
                        )
                    } else {
                        refuses(r, job.id@, asset_not_found())
                    }
                },
                Err(error) => {
                    &&& *final(self) == *old(self)
                    &&& refuses(
                        r,
                        job.id@,
                        ErrorView::internal(
                            "Failed to secure Chrome tab context asset: "@ + error@,
                        ),
                    )
                },
            },
    {
        match outcome {
            Ok(()) => {
                let told = match self.assets.get(job.asset_id.as_str()) {
                    Some(asset) => asset_json(job.asset_id.as_str(), asset.path.as_slice()),
                    None => return refuse(job.id, asset_not_found_error()),
                };
                set_finished(&mut self.assets, job.asset_id.as_str());
                answer(job.id, told)
            },
            Err(error) => refuse(
                job.id,
                RuntimeError::failure(
                    "Failed to secure Chrome tab context asset: ",
                    error.as_str(),
                ),
            ),
        }
    }

    /// An asset's file was removed, or not. One that was gone before counts as
    /// removed.
    pub fn asset_file_removed(&self, job: RemoveJob, removal: Removal) -> (r: Step)
        ensures
            request_of(r) == Some(job.id@),
            match removal {
                Removal::Failed(error) => refuses(
                    r,
                    job.id@,
                    ErrorView::internal("Failed to remove Chrome tab context asset: "@ + error@),
                ),
                _ => answers(r, job.id@, done_view()),
            },
    {
        match removal {
            Removal::Failed(error) => refuse(
                job.id,
                RuntimeError::failure(
                    "Failed to remove Chrome tab context asset: ",
                    error.as_str(),
                ),
            ),
            _ => answer(job.id, done_json()),
        }
    }

    /// A local file was looked at.
    pub fn local_file_inspected(&self, job: OpenJob, stat: &Option<FileStat>) -> (r: Step)
        ensures
            request_of(r) == Some(job.id@),
            match openable_fault(job.path@, *stat) {
                Some(fault) => refuses(r, job.id@, fault),
                None => r == Step::OpenLocalFile(job),
            },
    {
        match validate_openable_file(job.path.as_str(), stat) {
            Ok(()) => Step::OpenLocalFile(job),
            Err(error) => refuse(job.id, error),
        }
    }

    /// The program that opens files was started, or not.
    pub fn local_file_opened(&self, job: OpenJob, outcome: Result<(), String>) -> (r: Step)
        ensures
            request_of(r) == Some(job.id@),
            match outcome {
                Ok(_) => answers(r, job.id@, JsonView::Object(Map::empty())),
                Err(error) => refuses(
                    r,
                    job.id@,
                    ErrorView::internal("Failed to open local file: "@ + error@),
                ),
            },
    {
        match outcome {
            Ok(()) => answer(job.id, Members::new().object()),
            Err(error) => refuse(
                job.id,
                RuntimeError::failure("Failed to open local file: ", error.as_str()),
            ),
        }
    }
}

} // verus!
