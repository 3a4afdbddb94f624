//! Which entry of the manifests is chosen, and whether it can be used.
use crate::decode::{text_view, texts_view};
use crate::error::{fails_with, ErrorView, RuntimeError, RuntimeResult};
use crate::files::{
    owned_dir_fault, owned_file_fault, reports, required_path, required_path_error,
    validate_owned_dir, validate_owned_file, FileStat, OwnedFile, UserIds,
};
use crate::json::{items_view, lemma_items_view, Json, JsonView};
use crate::manifest::{
    decode_entry, entry_matches, entry_of, ConstraintsView, EntryView, RuntimeConstraints,
    RuntimeEntry, MANIFEST_SCHEMA_VERSION,
};
use crate::text::{blank, is_blank};
use vstd::prelude::*;
use vstd::string::*;
use vstd::utf8::encode_utf8;

verus! {

/// What tells one file from another.
#[derive(Clone, Copy, Debug, PartialEq, Eq, Structural)]
pub struct FileIdentity {
    pub device: u64,
    pub inode: u64,
}

/// A manifest: its version and the values it lists.
#[derive(Debug)]
pub struct RuntimeManifest {
    pub schema_version: u32,
    pub entries: Vec<Json>,
}

/// What came of reading a manifest file.
#[derive(Debug)]
pub enum ManifestRead {
    Missing,
    Unreadable,
    Malformed,
    Parsed(RuntimeManifest),
}

/// A manifest is at fault.
pub open spec fn manifest_invalid(message: Seq<char>) -> ErrorView {
    ErrorView::typed("manifest_invalid"@, message)
}

/// No entry serves the caller.
pub open spec fn no_matching_install() -> ErrorView {
    ErrorView::typed(
        "no_matching_codex_install"@,
        "No compatible Codex app-server entry was found"@,
    )
}

/// No entry serves the caller.
pub fn no_matching_install_error() -> (r: RuntimeError)
    ensures
        r@ == no_matching_install(),
{
    RuntimeError::typed(
        "no_matching_codex_install",
        "No compatible Codex app-server entry was found",
    )
}

/// What is wrong with a manifest file, if anything is. A missing one is not
/// wrong.
pub open spec fn read_fault(read: ManifestRead) -> Option<ErrorView> {
    match read {
        ManifestRead::Missing => None,
        ManifestRead::Unreadable => Some(
            manifest_invalid("Codex Chrome native host v2 manifest is invalid"@),
        ),
        ManifestRead::Malformed => Some(
            manifest_invalid("Codex Chrome native host v2 manifest is invalid"@),
        ),
        ManifestRead::Parsed(manifest) => if manifest.schema_version != MANIFEST_SCHEMA_VERSION {
            Some(manifest_invalid("Codex Chrome native host manifest must use schemaVersion 2"@))
        } else {
            None
        },
    }
}

/// What is wrong with the first faulty manifest file.
pub open spec fn first_fault(reads: Seq<ManifestRead>) -> Option<ErrorView>
    decreases reads.len(),
{
    if reads.len() == 0 {
        None
    } else {
        match first_fault(reads.drop_last()) {
            Some(fault) => Some(fault),
            None => read_fault(reads.last()),
        }
    }
}

/// The values that the manifests list, in order.
pub open spec fn listed(reads: Seq<ManifestRead>) -> Seq<JsonView>
    decreases reads.len(),
{
    if reads.len() == 0 {
        Seq::empty()
    } else {
        listed(reads.drop_last()) + (match reads.last() {
            ManifestRead::Parsed(manifest) => items_view(manifest.entries@),
            _ => Seq::empty(),
        })
    }
}

/// Whether every manifest file is missing.
pub open spec fn all_missing(reads: Seq<ManifestRead>) -> bool {
    forall|i: int| 0 <= i < reads.len() ==> (#[trigger] reads[i]) is Missing
}

/// What is wrong with the manifest files together: one of them is faulty, or
/// there is none.
pub open spec fn manifests_fault(reads: Seq<ManifestRead>) -> Option<ErrorView> {
    match first_fault(reads) {
        Some(fault) => Some(fault),
        None => if all_missing(reads) {
            Some(
                ErrorView::typed(
                    "manifest_missing"@,
                    "Codex Chrome native host v2 manifest is missing"@,
                ),
            )
        } else {
            None
        },
    }
}

/// Collects what the manifests list.
pub fn manifest_entries(reads: Vec<ManifestRead>) -> (r: RuntimeResult<Vec<Json>>)
    ensures
        match manifests_fault(reads@) {
            Some(fault) => fails_with(r, fault),
            None => r is Ok && items_view(r->Ok_0@) == listed(reads@),
        },
{
    let ghost all = reads@;
    let mut saw_manifest = false;
    let mut entries: Vec<Json> = Vec::new();
    for read in it: reads
        invariant
            it.seq() == all,
            all == reads@,
            first_fault(all.take(it.index())) is None,
            items_view(entries@) == listed(all.take(it.index())),
            saw_manifest == !all_missing(all.take(it.index())),
    {
        let ghost i = it.index();
        assert(read == all[i]);
        assert(all.take(i + 1).drop_last() =~= all.take(i));
        proof {
            if read_fault(read) is Some {
                lemma_fault_stays(all, i);
            }
        }
        match read {
            ManifestRead::Missing => {
                assert forall|j: int|
                    0 <= j < i + 1 && all_missing(all.take(i)) implies (#[trigger] all.take(
                    i + 1,
                )[j]) is Missing by {
                    if j < i {
                        assert(all.take(i)[j] is Missing);
                    }
                }
                proof {
                    if !all_missing(all.take(i)) {
                        let j = choose|j: int|
                            0 <= j < i && !((#[trigger] all.take(i)[j]) is Missing);
                        assert(!(all.take(i + 1)[j] is Missing));
                    }
                }
                assert(listed(all.take(i + 1)) =~= listed(all.take(i)));
            },
            ManifestRead::Unreadable => {
                return Err(
                    RuntimeError::typed(
                        "manifest_invalid",
                        "Codex Chrome native host v2 manifest is invalid",
                    ),
                );
            },
            ManifestRead::Malformed => {
                return Err(
                    RuntimeError::typed(
                        "manifest_invalid",
                        "Codex Chrome native host v2 manifest is invalid",
                    ),
                );
            },
            ManifestRead::Parsed(manifest) => {
                saw_manifest = true;
                assert(!(all.take(i + 1)[i] is Missing));
                if manifest.schema_version != MANIFEST_SCHEMA_VERSION {
                    return Err(
                        RuntimeError::typed(
                            "manifest_invalid",
                            "Codex Chrome native host manifest must use schemaVersion 2",
                        ),
                    );
                }
                let mut more = manifest.entries;
                let ghost before = entries@;
                let ghost added = more@;
                entries.append(&mut more);
                proof {
                    lemma_items_concat(before, added);
                }
            },
        }
    }
    assert(all.take(all.len() as int) =~= all);
    if !saw_manifest {
        return Err(
            RuntimeError::typed(
                "manifest_missing",
                "Codex Chrome native host v2 manifest is missing",
            ),
        );
    }
    Ok(entries)
}

/// The first fault is found wherever the reading stops.
proof fn lemma_fault_stays(reads: Seq<ManifestRead>, i: int)
    requires
        0 <= i < reads.len(),
        first_fault(reads.take(i)) is None,
        read_fault(reads[i]) is Some,
    ensures
        first_fault(reads) == read_fault(reads[i]),
    decreases reads.len(),
{
    let rest = reads.drop_last();
    if i == reads.len() - 1 {
        assert(rest =~= reads.take(i));
    } else {
        assert(rest.take(i) =~= reads.take(i));
        assert(rest[i] == reads[i]);
        lemma_fault_stays(rest, i);
    }
}

/// The views of two lists of values, one behind the other.
proof fn lemma_items_concat(a: Seq<Json>, b: Seq<Json>)
    ensures
        items_view(a + b) == items_view(a) + items_view(b),
{
    lemma_items_view(a);
    lemma_items_view(b);
    lemma_items_view(a + b);
    assert forall|i: int| 0 <= i < (a + b).len() implies items_view(a + b)[i] == (items_view(a)
        + items_view(b))[i] by {
        assert(items_view(a + b)[i] == (a + b)[i]@);
        if i < a.len() {
            assert(items_view(a)[i] == a[i]@);
        } else {
            assert(items_view(b)[i - a.len()] == b[i - a.len()]@);
        }
    }
    assert(items_view(a + b) =~= items_view(a) + items_view(b));
}

/// The entries among listed values that meet a caller's demands, in order.
/// Values that are no entries are passed over.
pub open spec fn candidates_of(values: Seq<JsonView>, c: ConstraintsView) -> Seq<EntryView>
    decreases values.len(),
{
    if values.len() == 0 {
        Seq::empty()
    } else {
        let before = candidates_of(values.drop_last(), c);
        match entry_of(values.last()) {
            Some(e) => if entry_matches(e, c) {
                before.push(e)
            } else {
                before
            },
            None => before,
        }
    }
}

/// The views of entries, in order.
pub open spec fn entries_view(entries: Seq<RuntimeEntry>) -> Seq<EntryView> {
    entries.map_values(|e: RuntimeEntry| e@)
}

/// The entries among listed values that meet a caller's demands.
pub fn matching_entries(values: &Vec<Json>, constraints: &RuntimeConstraints) -> (r: Vec<
    RuntimeEntry,
>)
    ensures
        entries_view(r@) == candidates_of(items_view(values@), constraints@),
{
    proof {
        lemma_items_view(values@);
    }
    let ghost views = items_view(values@);
    let mut out: Vec<RuntimeEntry> = Vec::new();
    assert(views.take(0).len() == 0);
    assert(entries_view(out@) =~= Seq::empty());
    for i in 0..values.len()
        invariant
            views == items_view(values@),
            views.len() == values@.len(),
            forall|j: int| 0 <= j < values@.len() ==> #[trigger] views[j] == values@[j]@,
            entries_view(out@) == candidates_of(views.take(i as int), constraints@),
    {
        assert(views[i as int] == values@[i as int]@);
        assert(views.take(i + 1).drop_last() =~= views.take(i as int));
        match decode_entry(&values[i]) {
            Some(entry) => if entry.matches(constraints) {
                let ghost before = entries_view(out@);
                out.push(entry);
                assert(entries_view(out@) =~= before.push(entry@));
            },
            None => {},
        }
    }
    assert(views.take(views.len() as int) =~= views);
    out
}

/// Whether bytes come before others in lexicographic order.
pub open spec fn bytes_less(a: Seq<u8>, b: Seq<u8>) -> bool
    decreases a.len(),
{
    if b.len() == 0 {
        false
    } else if a.len() == 0 {
        true
    } else if a[0] != b[0] {
        a[0] < b[0]
    } else {
        bytes_less(a.drop_first(), b.drop_first())
    }
}

/// Whether a text comes before another, by the bytes of their encoding.
pub open spec fn text_less(a: Seq<char>, b: Seq<char>) -> bool {
    bytes_less(encode_utf8(a), encode_utf8(b))
}

/// The order of bytes is total and transitive.
proof fn lemma_bytes_less(a: Seq<u8>, b: Seq<u8>, c: Seq<u8>)
    ensures
        !bytes_less(a, a),
        bytes_less(a, b) || a == b || bytes_less(b, a),
        bytes_less(a, b) && bytes_less(b, c) ==> bytes_less(a, c),
    decreases a.len() + b.len() + c.len(),
{
    if a.len() > 0 && b.len() > 0 && c.len() > 0 {
        lemma_bytes_less(a.drop_first(), b.drop_first(), c.drop_first());
    } else if a.len() > 0 && b.len() > 0 {
        lemma_bytes_less(a.drop_first(), b.drop_first(), c);
    } else if a.len() > 0 {
        lemma_bytes_less(a.drop_first(), b, c);
    }
    if a.len() > 0 && b.len() > 0 && a[0] == b[0] && a.drop_first() == b.drop_first() {
        assert(a =~= seq![a[0]] + a.drop_first());
        assert(b =~= seq![b[0]] + b.drop_first());
    }
    if a.len() == 0 && b.len() == 0 {
        assert(a =~= b);
    }
}

/// Compares bytes in lexicographic order.
fn comes_before(a: &[u8], b: &[u8]) -> (r: bool)
    ensures
        r == bytes_less(a@, b@),
{
    let mut i: usize = 0;
    assert(a@.skip(0) =~= a@ && b@.skip(0) =~= b@);
    while i < a.len() && i < b.len() && a[i] == b[i]
        invariant
            i <= a@.len(),
            i <= b@.len(),
            bytes_less(a@, b@) == bytes_less(a@.skip(i as int), b@.skip(i as int)),
        decreases a@.len() - i,
    {
        assert(a@.skip(i as int).drop_first() =~= a@.skip(i + 1));
        assert(b@.skip(i as int).drop_first() =~= b@.skip(i + 1));
        i = i + 1;
    }
    if i >= b.len() {
        false
    } else if i >= a.len() {
        true
    } else {
        a[i] < b[i]
    }
}

/// Whether a candidate is run by the host that is running.
pub open spec fn own_host(
    hosts: Seq<Option<FileIdentity>>,
    current: FileIdentity,
    i: int,
) -> bool {
    0 <= i < hosts.len() && hosts[i] == Some(current)
}

/// Whether a candidate is the one to choose: of those that the running host
/// serves the one that was updated last, and of several such the first.
pub open spec fn chosen(
    candidates: Seq<EntryView>,
    hosts: Seq<Option<FileIdentity>>,
    current: FileIdentity,
    k: int,
) -> bool {
    &&& 0 <= k < candidates.len()
    &&& own_host(hosts, current, k)
    &&& forall|j: int|
        0 <= j < candidates.len() && #[trigger] own_host(hosts, current, j) ==> !text_less(
            candidates[k].updated_at,
            candidates[j].updated_at,
        )
    &&& forall|j: int|
        0 <= j < k && #[trigger] own_host(hosts, current, j) ==> text_less(
            candidates[j].updated_at,
            candidates[k].updated_at,
        )
}

/// Whether a result is the candidate to choose, or says that there is none: no
/// candidate is one of the running host's.
pub open spec fn choice_made(
    r: RuntimeResult<RuntimeEntry>,
    candidates: Seq<RuntimeEntry>,
    hosts: Seq<Option<FileIdentity>>,
    current: FileIdentity,
) -> bool {
    match r {
        Ok(entry) => exists|k: int|
            #[trigger] chosen(entries_view(candidates), hosts, current, k) && entry
                == candidates[k],
        Err(error) => {
            &&& error@ == no_matching_install()
            &&& forall|j: int| 0 <= j < candidates.len() ==> !#[trigger] own_host(hosts, current, j)
        },
    }
}

/// Chooses among the candidates, whose hosts were identified.
pub fn choose_entry(
    candidates: Vec<RuntimeEntry>,
    hosts: &Vec<Option<FileIdentity>>,
    current: FileIdentity,
) -> (r: RuntimeResult<RuntimeEntry>)
    ensures
        choice_made(r, candidates@, hosts@, current),
{
    let ghost views = entries_view(candidates@);
    let mut best: Option<usize> = None;
    for i in 0..candidates.len()
        invariant
            views == entries_view(candidates@),
            match best {
                Some(k) => {
                    &&& k < i
                    &&& own_host(hosts@, current, k as int)
                    &&& forall|j: int|
                        0 <= j < i && #[trigger] own_host(hosts@, current, j) ==> !text_less(
                            views[k as int].updated_at,
                            views[j].updated_at,
                        )
                    &&& forall|j: int|
                        0 <= j < k && #[trigger] own_host(hosts@, current, j) ==> text_less(
                            views[j].updated_at,
                            views[k as int].updated_at,
                        )
                },
                None => forall|j: int| 0 <= j < i ==> !#[trigger] own_host(hosts@, current, j),
            },
    {
        let own = i < hosts.len() && match hosts[i] {
            Some(identity) => identity == current,
            None => false,
        };
        assert(own == own_host(hosts@, current, i as int));
        assert(views[i as int] == candidates@[i as int]@);
        if own {
            match best {
                Some(k) => {
                    assert(views[k as int] == candidates@[k as int]@);
                    let ghost at_k = encode_utf8(views[k as int].updated_at);
                    let ghost at_i = encode_utf8(views[i as int].updated_at);
                    if comes_before(
                        candidates[k].updated_at.as_str().as_bytes(),
                        candidates[i].updated_at.as_str().as_bytes(),
                    ) {
                        best = Some(i);
                        proof {
                            assert forall|j: int|
                                0 <= j < i && #[trigger] own_host(
                                    hosts@,
                                    current,
                                    j,
                                ) implies text_less(
                                views[j].updated_at,
                                views[i as int].updated_at,
                            ) by {
                                let at_j = encode_utf8(views[j].updated_at);
                                lemma_bytes_less(at_k, at_j, at_i);
                                lemma_bytes_less(at_j, at_k, at_i);
                            }
                            assert forall|j: int|
                                0 <= j < i + 1 && #[trigger] own_host(
                                    hosts@,
                                    current,
                                    j,
                                ) implies !text_less(
                                views[i as int].updated_at,
                                views[j].updated_at,
                            ) by {
                                let at_j = encode_utf8(views[j].updated_at);
                                lemma_bytes_less(at_i, at_j, at_i);
                            }
                        }
                    }
                },
                None => {
                    best = Some(i);
                    proof {
                        lemma_bytes_less(
                            encode_utf8(views[i as int].updated_at),
                            encode_utf8(views[i as int].updated_at),
                            encode_utf8(views[i as int].updated_at),
                        );
                    }
                },
            }
        }
    }
    match best {
        Some(k) => {
            assert(chosen(views, hosts@, current, k as int));
            let mut candidates = candidates;
            Ok(candidates.swap_remove(k))
        },
        None => Err(no_matching_install_error()),
    }
}

/// There is one entry to choose at most.
pub proof fn the_choice_is_unique(
    candidates: Seq<EntryView>,
    hosts: Seq<Option<FileIdentity>>,
    current: FileIdentity,
    a: int,
    b: int,
)
    requires
        chosen(candidates, hosts, current, a),
        chosen(candidates, hosts, current, b),
    ensures
        a == b,
{
    if a < b {
        assert(own_host(hosts, current, a));
    } else if b < a {
        assert(own_host(hosts, current, b));
    }
}

/// What the file system says of the paths of an entry, and which files the
/// running host and the entry's host are.
#[derive(Debug)]
pub struct EntryFacts {
    pub ids: UserIds,
    pub codex_home: Option<FileStat>,
    pub resources_path: Option<FileStat>,
    pub codex_cli_path: OwnedFile,
    pub extension_host_path: OwnedFile,
    pub node_path: OwnedFile,
    pub node_repl_path: OwnedFile,
    pub browser_client_path: OwnedFile,
    pub node_module_dirs: Vec<Option<FileStat>>,
    pub current_host: Option<FileIdentity>,
    pub configured_host: Option<FileIdentity>,
}

/// Whether an entry leaves something empty that must be said.
pub open spec fn entry_is_blank(e: EntryView) -> bool {
    ||| blank(e.entry_id)
    ||| blank(e.install_id)
    ||| blank(e.app_version)
    ||| blank(e.cli_version)
    ||| blank(e.native_host_version)
}

/// What the file system says of one of several directories.
pub open spec fn dir_stat(stats: Seq<Option<FileStat>>, i: int) -> Option<FileStat> {
    if 0 <= i < stats.len() {
        stats[i]
    } else {
        None
    }
}

/// What is wrong with the first faulty directory for modules.
pub open spec fn module_dirs_fault(
    dirs: Seq<Seq<char>>,
    stats: Seq<Option<FileStat>>,
    ids: UserIds,
) -> Option<ErrorView>
    decreases dirs.len(),
{
    if dirs.len() == 0 {
        None
    } else {
        match module_dirs_fault(dirs.drop_last(), stats, ids) {
            Some(fault) => Some(fault),
            None => owned_dir_fault(
                dirs.last(),
                dir_stat(stats, dirs.len() - 1),
                false,
                ids,
            ),
        }
    }
}

/// The first fault that there is.
pub open spec fn or_fault(first: Option<ErrorView>, second: Option<ErrorView>) -> Option<
    ErrorView,
> {
    match first {
        Some(fault) => Some(fault),
        None => second,
    }
}

/// What is wrong with a file that an entry may leave out.
pub open spec fn optional_file_fault(
    path: Option<Seq<char>>,
    file: OwnedFile,
    executable: bool,
    ids: UserIds,
) -> Option<ErrorView> {
    match path {
        Some(path) => owned_file_fault(path, file, executable, ids),
        None => None,
    }
}

/// What is wrong with the hosts: one cannot be told, or they are not one.
pub open spec fn host_fault(
    current: Option<FileIdentity>,
    configured: Option<FileIdentity>,
) -> Option<ErrorView> {
    if current is None || configured is None {
        Some(required_path("extensionHostPath"@))
    } else if current != configured {
        Some(no_matching_install())
    } else {
        None
    }
}

/// What is wrong with the paths of an entry, the first fault first.
pub open spec fn paths_fault(e: EntryView, facts: EntryFacts) -> Option<ErrorView> {
    let p = e.paths;
    let ids = facts.ids;
    or_fault(
        owned_dir_fault(p.codex_home, facts.codex_home, true, ids),
        or_fault(
            owned_dir_fault(p.resources_path, facts.resources_path, false, ids),
            or_fault(
                owned_file_fault(p.codex_cli_path, facts.codex_cli_path, true, ids),
                or_fault(
                    owned_file_fault(p.extension_host_path, facts.extension_host_path, true, ids),
                    or_fault(
                        owned_file_fault(p.node_path, facts.node_path, true, ids),
                        or_fault(
                            optional_file_fault(p.node_repl_path, facts.node_repl_path, true, ids),
                            or_fault(
                                optional_file_fault(
                                    p.browser_client_path,
                                    facts.browser_client_path,
                                    false,
                                    ids,
                                ),
                                module_dirs_fault(
                                    p.node_module_dirs,
                                    facts.node_module_dirs@,
                                    ids,
                                ),
                            ),
                        ),
                    ),
                ),
            ),
        ),
    )
}

/// What is wrong with an entry, the first fault first.
pub open spec fn entry_fault(e: EntryView, facts: EntryFacts) -> Option<ErrorView> {
    or_fault(
        if entry_is_blank(e) {
            Some(manifest_invalid("Matching manifest entry is malformed"@))
        } else {
            None
        },
        or_fault(paths_fault(e, facts), host_fault(facts.current_host, facts.configured_host)),
    )
}

/// Checks an optional file that the runtime is to use.
fn validate_optional_file(
    path: &Option<String>,
    file: &OwnedFile,
    executable: bool,
    ids: &UserIds,
) -> (r: RuntimeResult<()>)
    ensures
        reports(
            r,
            optional_file_fault(text_view(*path), *file, executable, *ids),
        ),
{
    match path {
        Some(path) => validate_owned_file(path.as_str(), file, executable, ids),
        None => Ok(()),
    }
}

/// Checks the directories for modules.
fn validate_module_dirs(dirs: &Vec<String>, stats: &Vec<Option<FileStat>>, ids: &UserIds) -> (r:
    RuntimeResult<()>)
    ensures
        reports(r, module_dirs_fault(texts_view(dirs@), stats@, *ids)),
{
    let ghost names = texts_view(dirs@);
    for i in 0..dirs.len()
        invariant
            names == texts_view(dirs@),
            module_dirs_fault(names.take(i as int), stats@, *ids) is None,
    {
        assert(names.take(i + 1).drop_last() =~= names.take(i as int));
        assert(names[i as int] == dirs@[i as int]@);
        let stat = if i < stats.len() {
            stats[i]
        } else {
            None
        };
        match validate_owned_dir(dirs[i].as_str(), &stat, false, ids) {
            Ok(()) => {},
            Err(error) => {
                proof {
                    lemma_module_fault_stays(names, stats@, *ids, i as int);
                }
                return Err(error);
            },
        }
    }
    assert(names.take(names.len() as int) =~= names);
    Ok(())
}

/// The first faulty directory is found wherever the checking stops.
proof fn lemma_module_fault_stays(
    dirs: Seq<Seq<char>>,
    stats: Seq<Option<FileStat>>,
    ids: UserIds,
    i: int,
)
    requires
        0 <= i < dirs.len(),
        module_dirs_fault(dirs.take(i), stats, ids) is None,
        owned_dir_fault(dirs[i], dir_stat(stats, i), false, ids) is Some,
    ensures
        module_dirs_fault(dirs, stats, ids) == owned_dir_fault(
            dirs[i],
            dir_stat(stats, i),
            false,
            ids,
        ),
    decreases dirs.len(),
{
    let rest = dirs.drop_last();
    if i == dirs.len() - 1 {
        assert(rest =~= dirs.take(i));
    } else {
        assert(rest.take(i) =~= dirs.take(i));
        assert(rest[i] == dirs[i]);
        lemma_module_fault_stays(rest, stats, ids, i);
    }
}

/// Checks the names and versions of an entry.
fn validate_entry_names(entry: &RuntimeEntry) -> (r: RuntimeResult<()>)
    ensures
        reports(
            r,
            if entry_is_blank(entry@) {
                Some(manifest_invalid("Matching manifest entry is malformed"@))
            } else {
                None
            },
        ),
{
    if is_blank(entry.entry_id.as_str()) || is_blank(entry.install_id.as_str()) || is_blank(
        entry.app_version.as_str(),
    ) || is_blank(entry.cli_version.as_str()) || is_blank(entry.native_host_version.as_str()) {
        return Err(RuntimeError::typed("manifest_invalid", "Matching manifest entry is malformed"));
    }
    Ok(())
}

/// Checks an entry before it is used.
pub fn validate_runtime_entry(entry: &RuntimeEntry, facts: &EntryFacts) -> (r: RuntimeResult<()>)
    ensures
        reports(r, entry_fault(entry@, *facts)),
{
    validate_entry_names(entry)?;
    let paths = &entry.paths;
    let ids = &facts.ids;
    validate_owned_dir(paths.codex_home.as_str(), &facts.codex_home, true, ids)?;
    validate_owned_dir(paths.resources_path.as_str(), &facts.resources_path, false, ids)?;
    validate_owned_file(paths.codex_cli_path.as_str(), &facts.codex_cli_path, true, ids)?;
    validate_owned_file(
        paths.extension_host_path.as_str(),
        &facts.extension_host_path,
        true,
        ids,
    )?;
    validate_owned_file(paths.node_path.as_str(), &facts.node_path, true, ids)?;
    validate_optional_file(&paths.node_repl_path, &facts.node_repl_path, true, ids)?;
    validate_optional_file(&paths.browser_client_path, &facts.browser_client_path, false, ids)?;
    validate_module_dirs(&paths.node_module_dirs, &facts.node_module_dirs, ids)?;
    match (facts.current_host, facts.configured_host) {
        (Some(current), Some(configured)) => if current != configured {
            Err(no_matching_install_error())
        } else {
            Ok(())
        },
        _ => Err(required_path_error("extensionHostPath")),
    }
}

} // verus!
