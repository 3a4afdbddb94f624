//! Tab context assets: files that the extension fills chunk by chunk.
use crate::encode::{is_hex_digit, random_text};
use crate::error::{fails_with, ErrorView, RuntimeError, RuntimeResult};
use crate::fields::{fields, lemma_one_more_field};
use crate::json::{Json, JsonView, Members};
use crate::params::{missing_parameter, required_string, required_text};
use crate::paths::{display_path, join_path, path_parts, DOT, SLASH};
use crate::roots::below;
use crate::table::Table;
use crate::text::{byte_len, cat, chars_of, contains_char, same_text};
use vstd::prelude::*;
use vstd::string::*;
use vstd::utf8::{
    decode_utf8, encode_scalar, encode_utf8, encode_utf8_valid_utf8, is_ascii_chars,
    is_ascii_chars_encode_utf8, valid_utf8, valid_utf8_concat,
};

verus! {

/// How many assets there are at a time.
pub const MAX_ACTIVE_ASSETS: usize = 32;

/// The largest asset, in bytes.
pub const MAX_ASSET_BYTES: u64 = 67_108_864;

/// The longest chunk of an asset, in base64.
pub const MAX_ASSET_CHUNK_BASE64: usize = 65_536;

/// The longest file name of an asset, in bytes.
pub const MAX_ASSET_FILE_NAME_BYTES: usize = 255;

/// `base64::DecodeError`, carried as an opaque value.
#[verifier::external_type_specification]
#[verifier::external_body]
pub struct ExDecodeError(base64::DecodeError);

/// An asset: the file it is in, how much was written to it, and whether it is
/// complete.
#[derive(Debug)]
pub struct TabContextAsset {
    pub finished: bool,
    pub path: Vec<u8>,
    pub size: u64,
}

/// Whether a text can be the name of an asset's file: it is one part of a path
/// and leads nowhere else.
pub open spec fn asset_file_name(name: Seq<char>) -> bool {
    &&& encode_utf8(name).len() <= MAX_ASSET_FILE_NAME_BYTES
    &&& name != "."@
    &&& name != ".."@
    &&& !name.contains('/')
    &&& !name.contains('\\')
    &&& !name.contains('\0')
}

/// Checks the name of an asset's file.
pub fn validate_asset_file_name(file_name: &str) -> (r: RuntimeResult<()>)
    ensures
        asset_file_name(file_name@) ==> r is Ok,
        !asset_file_name(file_name@) ==> fails_with(
            r,
            ErrorView::invalid_params("Invalid Chrome tab context asset file name"@),
        ),
{
    let chars = chars_of(file_name);
    if byte_len(file_name) > MAX_ASSET_FILE_NAME_BYTES || same_text(file_name, ".") || same_text(
        file_name,
        "..",
    ) || contains_char(chars.as_slice(), '/') || contains_char(chars.as_slice(), '\\')
        || contains_char(chars.as_slice(), '\0') {
        return Err(RuntimeError::invalid_params("Invalid Chrome tab context asset file name"));
    }
    Ok(())
}

/// The bytes that a text encodes in base64, if it does.
pub uninterp spec fn base64_bytes(text: Seq<char>) -> Option<Seq<u8>>;

/// `base64::engine::general_purpose::STANDARD.decode`: whether a text is
/// accepted, and the bytes it stands for, depend on the text alone.
#[verifier::external_body]
fn base64_decode(text: &str) -> (r: Result<Vec<u8>, base64::DecodeError>)
    ensures
        match r {
            Ok(bytes) => base64_bytes(text@) == Some(bytes@),
            Err(_) => base64_bytes(text@) is None,
        },
{
    base64::Engine::decode(&base64::engine::general_purpose::STANDARD, text)
}

/// A chunk of an asset: the asset it belongs to, and its bytes.
#[derive(Debug)]
pub struct AssetChunk {
    pub asset_id: String,
    pub data: Vec<u8>,
}

/// A chunk cannot be read.
pub open spec fn invalid_chunk() -> ErrorView {
    ErrorView::invalid_params("Invalid Chrome tab context asset chunk"@)
}

/// Judges a chunk, given what its base64 stands for.
pub open spec fn chunk_bytes(text: Seq<char>, decoded: Option<Seq<u8>>) -> Option<Seq<u8>> {
    if encode_utf8(text).len() <= MAX_ASSET_CHUNK_BASE64 {
        decoded
    } else {
        None
    }
}

/// Reads the parameters of a chunk.
pub fn asset_chunk(params: &Json) -> (r: RuntimeResult<AssetChunk>)
    ensures
        match (required_text(params@, "assetId"@), required_text(params@, "dataBase64"@)) {
            (None, _) => fails_with(r, missing_parameter("assetId"@)),
            (Some(_), None) => fails_with(r, missing_parameter("dataBase64"@)),
            (Some(asset_id), Some(text)) => match chunk_bytes(text, base64_bytes(text)) {
                Some(data) => r is Ok && r->Ok_0.asset_id@ == asset_id && r->Ok_0.data@ == data,
                None => fails_with(r, invalid_chunk()),
            },
        },
{
    let asset_id = match required_string(params, "assetId") {
        Ok(asset_id) => asset_id,
        Err(error) => return Err(error),
    };
    let text = match required_string(params, "dataBase64") {
        Ok(text) => text,
        Err(error) => return Err(error),
    };
    if byte_len(text) > MAX_ASSET_CHUNK_BASE64 {
        return Err(RuntimeError::invalid_params("Invalid Chrome tab context asset chunk"));
    }
    match base64_decode(text) {
        Ok(data) => Ok(AssetChunk { asset_id: asset_id.to_owned(), data }),
        Err(_) => Err(RuntimeError::invalid_params("Invalid Chrome tab context asset chunk")),
    }
}

/// An asset is not there.
pub open spec fn asset_not_found() -> ErrorView {
    ErrorView::invalid_params("Chrome tab context asset was not found"@)
}

/// An asset is not there.
pub fn asset_not_found_error() -> (r: RuntimeError)
    ensures
        r@ == asset_not_found(),
{
    RuntimeError::invalid_params("Chrome tab context asset was not found")
}

/// The assets there are.
pub type Assets = Map<Seq<char>, TabContextAsset>;

/// What an asset's size is after a chunk, or why the chunk is refused: the
/// asset is not there, is complete, or would become too large.
pub open spec fn size_after(assets: Assets, asset_id: Seq<char>, length: nat) -> Result<
    int,
    ErrorView,
> {
    if !assets.contains_key(asset_id) {
        Err(asset_not_found())
    } else if assets[asset_id].finished {
        Err(ErrorView::invalid_params("Chrome tab context asset is already finished"@))
    } else if assets[asset_id].size + length > MAX_ASSET_BYTES {
        Err(ErrorView::invalid_params("Chrome tab context asset is too large"@))
    } else {
        Ok(assets[asset_id].size + length)
    }
}

/// What an asset's size is after a chunk, or why the chunk is refused.
pub fn next_size(assets: &Table<TabContextAsset>, asset_id: &str, length: usize) -> (r:
    RuntimeResult<u64>)
    requires
        assets.wf(),
    ensures
        match size_after(assets@, asset_id@, length as nat) {
            Ok(size) => r is Ok && r->Ok_0 == size,
            Err(e) => fails_with(r, e),
        },
{
    let asset = match assets.get(asset_id) {
        Some(asset) => asset,
        None => return Err(asset_not_found_error()),
    };
    if asset.finished {
        return Err(RuntimeError::invalid_params("Chrome tab context asset is already finished"));
    }
    let size: u64 = asset.size.saturating_add(length as u64);
    if size > MAX_ASSET_BYTES {
        return Err(RuntimeError::invalid_params("Chrome tab context asset is too large"));
    }
    Ok(size)
}

/// The assets after one of them got a new size.
pub open spec fn with_size(assets: Assets, asset_id: Seq<char>, size: u64) -> Assets {
    if assets.contains_key(asset_id) {
        assets.insert(asset_id, TabContextAsset { size, ..assets[asset_id] })
    } else {
        assets
    }
}

/// The assets after one of them was completed.
pub open spec fn with_finished(assets: Assets, asset_id: Seq<char>) -> Assets {
    if assets.contains_key(asset_id) {
        assets.insert(asset_id, TabContextAsset { finished: true, ..assets[asset_id] })
    } else {
        assets
    }
}

/// Records an asset's new size.
pub fn set_size(assets: &mut Table<TabContextAsset>, asset_id: &str, size: u64)
    requires
        old(assets).wf(),
    ensures
        final(assets).wf(),
        final(assets)@ == with_size(old(assets)@, asset_id@, size),
        final(assets)@.len() == old(assets)@.len(),
{
    match assets.remove(asset_id) {
        Some(asset) => {
            let updated = TabContextAsset { finished: asset.finished, path: asset.path, size };
            assets.insert(asset_id.to_owned(), updated);
            assert(assets@ =~= with_size(old(assets)@, asset_id@, size));
        },
        None => {
            assert(assets@ =~= old(assets)@);
        },
    }
}

/// Records that an asset is complete.
pub fn set_finished(assets: &mut Table<TabContextAsset>, asset_id: &str)
    requires
        old(assets).wf(),
    ensures
        final(assets).wf(),
        final(assets)@ == with_finished(old(assets)@, asset_id@),
        final(assets)@.len() == old(assets)@.len(),
{
    match assets.remove(asset_id) {
        Some(asset) => {
            let updated = TabContextAsset { finished: true, path: asset.path, size: asset.size };
            assets.insert(asset_id.to_owned(), updated);
            assert(assets@ =~= with_finished(old(assets)@, asset_id@));
        },
        None => {
            assert(assets@ =~= old(assets)@);
        },
    }
}

/// The directory that assets are in.
pub open spec fn asset_dir(root: Seq<u8>) -> Seq<u8> {
    below(root, "codex-tab-context-assets"@)
}

/// The file that an asset is in.
pub open spec fn asset_path(root: Seq<u8>, asset_id: Seq<char>, file_name: Seq<char>) -> Seq<u8> {
    below(asset_dir(root), asset_id + "-"@ + file_name)
}

/// The directory that assets are in.
pub fn asset_dir_path(root: &[u8]) -> (r: Vec<u8>)
    ensures
        r@ == asset_dir(root@),
{
    join_path(root, "codex-tab-context-assets")
}

/// The file that an asset is in.
pub fn asset_file_path(root: &[u8], asset_id: &str, file_name: &str) -> (r: Vec<u8>)
    ensures
        r@ == asset_path(root@, asset_id@, file_name@),
{
    let leaf = cat(cat(asset_id, "-").as_str(), file_name);
    join_path(asset_dir_path(root).as_slice(), leaf.as_str())
}

/// Whether the assets keep to their limits: there are not too many, none is too
/// large, and the path of each is text, as what a caller is told has to be.
pub open spec fn assets_in_bounds(assets: Assets) -> bool {
    &&& assets.len() <= MAX_ACTIVE_ASSETS
    &&& forall|id: Seq<char>|
        #[trigger] assets.contains_key(id) ==> assets[id].size <= MAX_ASSET_BYTES && valid_utf8(
            assets[id].path@,
        )
}

/// What a caller is told of an asset.
pub open spec fn asset_view(asset_id: Seq<char>, path: Seq<u8>) -> JsonView {
    JsonView::Object(
        map![
            "assetId"@ => JsonView::Text(asset_id),
            "path"@ => JsonView::Text(decode_utf8(path)),
        ],
    )
}

/// What a caller is told of an asset.
pub fn asset_json(asset_id: &str, path: &[u8]) -> (r: Json)
    requires
        valid_utf8(path@),
    ensures
        r@ == asset_view(asset_id@, path@),
{
    let mut asset = Members::new();
    asset.put("assetId", Json::text(asset_id));
    asset.put("path", Json::text(display_path(path).as_str()));
    asset.object()
}

/// An asset that is complete takes no more chunks.
pub proof fn a_finished_asset_takes_no_more(assets: Assets, asset_id: Seq<char>, length: nat)
    requires
        assets.contains_key(asset_id),
    ensures
        size_after(with_finished(assets, asset_id), asset_id, length) == Err::<int, ErrorView>(
            ErrorView::invalid_params("Chrome tab context asset is already finished"@),
        ),
{
}

/// Completing an asset once more changes nothing.
pub proof fn finishing_again_changes_nothing(assets: Assets, asset_id: Seq<char>)
    ensures
        with_finished(with_finished(assets, asset_id), asset_id) == with_finished(assets, asset_id),
{
    assert(with_finished(with_finished(assets, asset_id), asset_id) =~= with_finished(
        assets,
        asset_id,
    ));
}

/// An asset that was removed takes no chunks and cannot be completed.
pub proof fn a_removed_asset_is_gone(assets: Assets, asset_id: Seq<char>, length: nat)
    ensures
        size_after(assets.remove(asset_id), asset_id, length) == Err::<int, ErrorView>(
            asset_not_found(),
        ),
        with_finished(assets.remove(asset_id), asset_id) == assets.remove(asset_id),
{
}

/// The assets after chunks of those lengths came for one of them, in order, or
/// why one of the chunks is refused.
pub open spec fn after_chunks(assets: Assets, asset_id: Seq<char>, lengths: Seq<nat>) -> Result<
    Assets,
    ErrorView,
>
    decreases lengths.len(),
{
    if lengths.len() == 0 {
        Ok(assets)
    } else {
        match after_chunks(assets, asset_id, lengths.drop_last()) {
            Err(e) => Err(e),
            Ok(before) => match size_after(before, asset_id, lengths.last()) {
                Err(e) => Err(e),
                Ok(size) => Ok(with_size(before, asset_id, size as u64)),
            },
        }
    }
}

/// How many bytes there are in chunks together.
pub open spec fn total(lengths: Seq<nat>) -> nat
    decreases lengths.len(),
{
    if lengths.len() == 0 {
        0
    } else {
        total(lengths.drop_last()) + lengths.last()
    }
}

/// Chunks add up: an asset that took them has grown by as many bytes as they
/// have together, stays within its limit, and nothing else has changed.
pub proof fn chunks_add_up(assets: Assets, asset_id: Seq<char>, lengths: Seq<nat>)
    requires
        assets.contains_key(asset_id),
        assets[asset_id].size <= MAX_ASSET_BYTES,
        after_chunks(assets, asset_id, lengths) is Ok,
    ensures
        assets[asset_id].size + total(lengths) <= MAX_ASSET_BYTES,
        after_chunks(assets, asset_id, lengths)->Ok_0 == with_size(
            assets,
            asset_id,
            (assets[asset_id].size + total(lengths)) as u64,
        ),
    decreases lengths.len(),
{
    let after = after_chunks(assets, asset_id, lengths)->Ok_0;
    if lengths.len() > 0 {
        chunks_add_up(assets, asset_id, lengths.drop_last());
    }
    assert(after =~= with_size(
        assets,
        asset_id,
        (assets[asset_id].size + total(lengths)) as u64,
    ));
}

/// An asset takes chunks as long as it is not complete and they leave it
/// within its limit.
pub proof fn chunks_that_fit_are_taken(assets: Assets, asset_id: Seq<char>, lengths: Seq<nat>)
    requires
        assets.contains_key(asset_id),
        !assets[asset_id].finished,
        assets[asset_id].size + total(lengths) <= MAX_ASSET_BYTES,
    ensures
        after_chunks(assets, asset_id, lengths) is Ok,
    decreases lengths.len(),
{
    if lengths.len() > 0 {
        chunks_that_fit_are_taken(assets, asset_id, lengths.drop_last());
        chunks_add_up(assets, asset_id, lengths.drop_last());
    }
}

/// An asset is told of with the same path from its creation to its end: neither
/// a chunk nor its completion moves it, or touches another asset.
pub proof fn an_asset_keeps_its_path(
    assets: Assets,
    asset_id: Seq<char>,
    size: u64,
    other: Seq<char>,
)
    requires
        assets.contains_key(asset_id),
        other != asset_id,
    ensures
        with_size(assets, asset_id, size)[asset_id].path == assets[asset_id].path,
        with_finished(assets, asset_id)[asset_id].path == assets[asset_id].path,
        with_size(assets, asset_id, size)[other] == assets[other],
        with_finished(assets, asset_id)[other] == assets[other],
        with_size(assets, asset_id, size).dom() == assets.dom(),
        with_finished(assets, asset_id).dom() == assets.dom(),
{
    assert(with_size(assets, asset_id, size).dom() =~= assets.dom());
    assert(with_finished(assets, asset_id).dom() =~= assets.dom());
}

/// An asset that is created, filled, completed and removed leaves the others as
/// they were before.
pub proof fn an_asset_leaves_no_trace(
    assets: Assets,
    asset_id: Seq<char>,
    created: TabContextAsset,
    size: u64,
)
    requires
        !assets.contains_key(asset_id),
    ensures
        with_finished(
            with_size(assets.insert(asset_id, created), asset_id, size),
            asset_id,
        ).remove(asset_id) == assets,
{
    assert(with_finished(
        with_size(assets.insert(asset_id, created), asset_id, size),
        asset_id,
    ).remove(asset_id) =~= assets);
}

/// A character other than a slash is encoded without the byte of a slash.
proof fn lemma_slash_scalar(c: char)
    requires
        c != '/',
    ensures
        !encode_scalar(c as u32).contains(SLASH),
{
    let n = c as u32;
    assert(n <= 0x7f ==> (n & 0x7f) as u8 == n) by (bit_vector);
    assert((0xC0u8 | ((n >> 6) & 0x1F) as u8) >= 0x80) by (bit_vector);
    assert((0xE0u8 | ((n >> 12) & 0x0F) as u8) >= 0x80) by (bit_vector);
    assert((0xF0u8 | ((n >> 18) & 0x7) as u8) >= 0x80) by (bit_vector);
    assert((0x80u8 | (n & 0x3F) as u8) >= 0x80) by (bit_vector);
    assert((0x80u8 | ((n >> 6) & 0x3F) as u8) >= 0x80) by (bit_vector);
    assert((0x80u8 | ((n >> 12) & 0x3F) as u8) >= 0x80) by (bit_vector);
}

/// Only a slash is encoded with the byte of a slash.
proof fn lemma_slash_byte(text: Seq<char>)
    requires
        !text.contains('/'),
    ensures
        !encode_utf8(text).contains(SLASH),
    decreases text.len(),
{
    if text.len() > 0 {
        let rest = text.drop_first();
        assert forall|i: int| 0 <= i < rest.len() implies rest[i] != '/' by {
            assert(text[i + 1] == rest[i]);
        }
        lemma_slash_byte(rest);
        assert(text[0] != '/');
        lemma_slash_scalar(text[0]);
        let first = encode_scalar(text[0] as u32);
        assert forall|i: int| 0 <= i < encode_utf8(text).len() implies encode_utf8(text)[i]
            != SLASH by {
            if i < first.len() {
                assert(first.contains(first[i]));
            } else {
                assert(encode_utf8(text)[i] == encode_utf8(rest)[i - first.len()]);
            }
        }
    }
}

/// An asset's file lies directly in the directory for assets, whatever file
/// name was asked for: its path has one part more than the directory's, and
/// that part leads nowhere else.
pub proof fn an_asset_stays_in_its_directory(
    root: Seq<u8>,
    asset_id: Seq<char>,
    file_name: Seq<char>,
)
    requires
        random_text(asset_id, 16),
        asset_file_name(file_name),
    ensures
        path_parts(asset_path(root, asset_id, file_name)) == path_parts(asset_dir(root)).push(
            encode_utf8(asset_id + "-"@ + file_name),
        ),
        encode_utf8(asset_id + "-"@ + file_name) != seq![DOT, DOT],
{
    reveal_strlit("-");
    reveal_strlit("codex-tab-context-assets");
    let leaf = asset_id + "-"@ + file_name;
    assert forall|i: int| 0 <= i < leaf.len() implies leaf[i] != '/' by {
        if i < 32 {
            assert(is_hex_digit(asset_id[i]));
        } else if i > 32 {
            assert(leaf[i] == file_name[i - 33]);
        }
    }
    lemma_slash_byte(leaf);
    lemma_encoding_is_long(leaf);
    let dir = asset_dir(root);
    let name = "codex-tab-context-assets"@;
    assert(is_ascii_chars(name));
    is_ascii_chars_encode_utf8(name);
    assert(encode_utf8(name)[0] == name[0] as u8);
    assert(encode_utf8(name).last() == name.last() as u8);
    assert(dir.last() == encode_utf8(name).last());
    let bytes = encode_utf8(leaf);
    assert(bytes[0] != SLASH) by {
        assert(bytes.contains(bytes[0]));
    }
    assert(asset_path(root, asset_id, file_name) == dir.push(SLASH) + bytes);
    lemma_one_more_field(dir, SLASH, bytes);
    assert(fields(dir, SLASH).push(bytes).drop_last() =~= fields(dir, SLASH));
}

/// A text is encoded in at least as many bytes as it has characters.
proof fn lemma_encoding_is_long(text: Seq<char>)
    ensures
        encode_utf8(text).len() >= text.len(),
    decreases text.len(),
{
    if text.len() > 0 {
        lemma_encoding_is_long(text.drop_first());
    }
}

/// Below a runtime directory whose path is text, the paths of assets are text.
pub proof fn asset_paths_are_text(root: Seq<u8>, asset_id: Seq<char>, file_name: Seq<char>)
    requires
        valid_utf8(root),
    ensures
        valid_utf8(asset_path(root, asset_id, file_name)),
{
    lemma_below_is_text(root, "codex-tab-context-assets"@);
    lemma_below_is_text(asset_dir(root), asset_id + "-"@ + file_name);
}

/// Text below a path that is text is text.
proof fn lemma_below_is_text(base: Seq<u8>, leaf: Seq<char>)
    requires
        valid_utf8(base),
    ensures
        valid_utf8(below(base, leaf)),
{
    reveal_strlit("/");
    encode_utf8_valid_utf8(leaf);
    encode_utf8_valid_utf8("/"@);
    assert(is_ascii_chars("/"@));
    is_ascii_chars_encode_utf8("/"@);
    assert(encode_utf8("/"@) =~= seq![SLASH]);
    valid_utf8_concat(base, encode_utf8(leaf));
    valid_utf8_concat(base, encode_utf8("/"@));
    assert(base + encode_utf8("/"@) =~= base.push(SLASH));
    valid_utf8_concat(base.push(SLASH), encode_utf8(leaf));
}

} // verus!
