//! What holds of the choice among entries: the order it goes by, and which
//! entry it leads to.
use crate::error::{ErrorView, RuntimeResult};
use crate::json::{items_view, lemma_items_view, Json, JsonView};
use crate::manifest::{
    entry_matches, entry_of, ConstraintsView, EntryView, RuntimeConstraints, RuntimeEntry,
};
use crate::refusal_laws::{manifests_are_taken_in_their_order, manifests_in_order_are_used};
use crate::selection::{
    bytes_less, candidates_of, choice_made, choose_entry, chosen, entries_view, listed,
    manifest_entries, manifests_fault, matching_entries, own_host, text_less, FileIdentity,
    ManifestRead,
};
use vstd::prelude::*;
use vstd::utf8::{encode_scalar, encode_utf8};

verus! {

/// Bytes are ordered by the first place where they differ: what stands behind
/// it does not count.
pub proof fn bytes_are_ordered_by_their_first_difference(a: Seq<u8>, b: Seq<u8>, n: int)
    requires
        0 <= n < a.len(),
        n < b.len(),
        a.take(n) == b.take(n),
        a[n] < b[n],
    ensures
        bytes_less(a, b),
        !bytes_less(b, a),
    decreases n,
{
    if n > 0 {
        assert(a[0] == a.take(n)[0] && b[0] == b.take(n)[0]);
        let a1 = a.drop_first();
        let b1 = b.drop_first();
        assert(a1.take(n - 1) =~= a.take(n).drop_first());
        assert(b1.take(n - 1) =~= b.take(n).drop_first());
        bytes_are_ordered_by_their_first_difference(a1, b1, n - 1);
    }
}

/// Bytes that others begin with come before them, and nothing comes before
/// itself.
pub proof fn a_beginning_of_bytes_comes_first(a: Seq<u8>, b: Seq<u8>)
    requires
        a.len() <= b.len(),
        a == b.take(a.len() as int),
    ensures
        bytes_less(a, b) <==> a.len() < b.len(),
        !bytes_less(b, a),
    decreases a.len(),
{
    if a.len() > 0 {
        assert(b[0] == b.take(a.len() as int)[0]);
        let a1 = a.drop_first();
        let b1 = b.drop_first();
        assert(a1 =~= b1.take(a1.len() as int)) by {
            assert(a1 =~= b.take(a.len() as int).drop_first());
            assert(b1.take(a1.len() as int) =~= b.take(a.len() as int).drop_first());
        }
        a_beginning_of_bytes_comes_first(a1, b1);
    }
}

/// One text behind another is encoded as the one behind the other.
proof fn lemma_encoding_concat(a: Seq<char>, b: Seq<char>)
    ensures
        encode_utf8(a + b) == encode_utf8(a) + encode_utf8(b),
    decreases a.len(),
{
    if a.len() == 0 {
        assert(a + b =~= b);
    } else {
        assert((a + b).drop_first() =~= a.drop_first() + b);
        lemma_encoding_concat(a.drop_first(), b);
        assert(encode_utf8(a + b) =~= encode_utf8(a) + encode_utf8(b));
    }
}

/// Characters are ordered as their encodings are: at some place the bytes
/// differ for the first time, and the smaller character has the smaller byte.
proof fn lemma_scalar_order(c: char, d: char) -> (k: int)
    requires
        c < d,
    ensures
        0 <= k < encode_scalar(c as u32).len(),
        k < encode_scalar(d as u32).len(),
        encode_scalar(c as u32).take(k) == encode_scalar(d as u32).take(k),
        encode_scalar(c as u32)[k] < encode_scalar(d as u32)[k],
{
    let m = c as u32;
    let n = d as u32;
    let low = encode_scalar(m);
    let high = encode_scalar(n);
    assert(m < n);
    assert(m <= 0x7f ==> ((m & 0x7f) as u8) == m) by (bit_vector);
    assert(n <= 0x7f ==> ((n & 0x7f) as u8) == n) by (bit_vector);
    assert(0xC0 <= (0xC0u8 | ((m >> 6) & 0x1F) as u8) <= 0xDF) by (bit_vector);
    assert(0xC0 <= (0xC0u8 | ((n >> 6) & 0x1F) as u8) <= 0xDF) by (bit_vector);
    assert(0xE0 <= (0xE0u8 | ((m >> 12) & 0x0F) as u8) <= 0xEF) by (bit_vector);
    assert(0xE0 <= (0xE0u8 | ((n >> 12) & 0x0F) as u8) <= 0xEF) by (bit_vector);
    assert(0xF0 <= (0xF0u8 | ((n >> 18) & 0x7) as u8)) by (bit_vector);
    assert(m < n && n <= 0x7ff ==> (0xC0u8 | ((m >> 6) & 0x1F) as u8) < (0xC0u8 | ((n >> 6)
        & 0x1F) as u8) || ((0xC0u8 | ((m >> 6) & 0x1F) as u8) == (0xC0u8 | ((n >> 6) & 0x1F) as u8)
        && (0x80u8 | (m & 0x3F) as u8) < (0x80u8 | (n & 0x3F) as u8))) by (bit_vector);
    assert(m < n && n <= 0xffff ==> (0xE0u8 | ((m >> 12) & 0x0F) as u8) < (0xE0u8 | ((n >> 12)
        & 0x0F) as u8) || ((0xE0u8 | ((m >> 12) & 0x0F) as u8) == (0xE0u8 | ((n >> 12)
        & 0x0F) as u8) && ((0x80u8 | ((m >> 6) & 0x3F) as u8) < (0x80u8 | ((n >> 6) & 0x3F) as u8)
        || ((0x80u8 | ((m >> 6) & 0x3F) as u8) == (0x80u8 | ((n >> 6) & 0x3F) as u8) && (0x80u8 | (m
        & 0x3F) as u8) < (0x80u8 | (n & 0x3F) as u8))))) by (bit_vector);
    assert(m < n && n <= 0x10ffff ==> (0xF0u8 | ((m >> 18) & 0x7) as u8) < (0xF0u8 | ((n >> 18)
        & 0x7) as u8) || ((0xF0u8 | ((m >> 18) & 0x7) as u8) == (0xF0u8 | ((n >> 18) & 0x7) as u8)
        && ((0x80u8 | ((m >> 12) & 0x3F) as u8) < (0x80u8 | ((n >> 12) & 0x3F) as u8) || ((0x80u8
        | ((m >> 12) & 0x3F) as u8) == (0x80u8 | ((n >> 12) & 0x3F) as u8) && ((0x80u8 | ((m >> 6)
        & 0x3F) as u8) < (0x80u8 | ((n >> 6) & 0x3F) as u8) || ((0x80u8 | ((m >> 6) & 0x3F) as u8)
        == (0x80u8 | ((n >> 6) & 0x3F) as u8) && (0x80u8 | (m & 0x3F) as u8) < (0x80u8 | (n
        & 0x3F) as u8))))))) by (bit_vector);
    let k = if low[0] != high[0] {
        0
    } else if low[1] != high[1] {
        1
    } else if low[2] != high[2] {
        2int
    } else {
        3
    };
    assert(low.take(k) =~= high.take(k));
    k
}

/// Texts are ordered by the first character in which they differ, whatever
/// stands behind it.
pub proof fn texts_are_ordered_by_their_first_difference(a: Seq<char>, b: Seq<char>, n: int)
    requires
        0 <= n < a.len(),
        n < b.len(),
        a.take(n) == b.take(n),
        a[n] < b[n],
    ensures
        text_less(a, b),
        !text_less(b, a),
{
    let head = a.take(n);
    let low = encode_scalar(a[n] as u32);
    let high = encode_scalar(b[n] as u32);
    let k = lemma_scalar_order(a[n], b[n]);
    assert(a =~= head + a.skip(n));
    assert(b =~= head + b.skip(n));
    lemma_encoding_concat(head, a.skip(n));
    lemma_encoding_concat(head, b.skip(n));
    let start = encode_utf8(head);
    let ea = encode_utf8(a);
    let eb = encode_utf8(b);
    assert(ea =~= start + (low + encode_utf8(a.skip(n).drop_first())));
    assert(eb =~= start + (high + encode_utf8(b.skip(n).drop_first())));
    let at = start.len() + k;
    assert(ea[at] == low[k]);
    assert(eb[at] == high[k]);
    assert forall|i: int| 0 <= i < at implies ea[i] == eb[i] by {
        if i >= start.len() {
            assert(ea[i] == low[i - start.len()]);
            assert(eb[i] == high[i - start.len()]);
            assert(low.take(k)[i - start.len()] == high.take(k)[i - start.len()]);
        }
    }
    assert(ea.take(at) =~= eb.take(at));
    bytes_are_ordered_by_their_first_difference(ea, eb, at);
}

/// A text that another begins with comes before it, and none comes before
/// itself.
pub proof fn a_beginning_of_a_text_comes_first(a: Seq<char>, b: Seq<char>)
    requires
        a.len() <= b.len(),
        a == b.take(a.len() as int),
    ensures
        text_less(a, b) <==> a.len() < b.len(),
        !text_less(b, a),
{
    let rest = b.skip(a.len() as int);
    assert(b =~= a + rest);
    lemma_encoding_concat(a, rest);
    let ea = encode_utf8(a);
    let eb = encode_utf8(b);
    assert(eb.take(ea.len() as int) =~= ea);
    if rest.len() > 0 {
        assert(encode_utf8(rest).len() > 0);
    }
    a_beginning_of_bytes_comes_first(ea, eb);
}

/// The entry that is chosen is one of the running host's, and no other entry of
/// that host was updated later: no date of theirs is greater in the first
/// character that differs, or goes on where its date ends. Of those with one
/// date it is the first.
pub proof fn the_latest_entry_of_the_host_is_chosen(
    candidates: Seq<EntryView>,
    hosts: Seq<Option<FileIdentity>>,
    current: FileIdentity,
    k: int,
    j: int,
    n: int,
)
    requires
        chosen(candidates, hosts, current, k),
        0 <= j < candidates.len(),
        j < hosts.len(),
        hosts[j] == Some(current),
    ensures
        0 <= k < candidates.len(),
        k < hosts.len(),
        hosts[k] == Some(current),
        !(0 <= n < candidates[k].updated_at.len() && n < candidates[j].updated_at.len()
            && candidates[k].updated_at.take(n) == candidates[j].updated_at.take(n)
            && candidates[k].updated_at[n] < candidates[j].updated_at[n]),
        !(candidates[k].updated_at.len() < candidates[j].updated_at.len()
            && candidates[k].updated_at == candidates[j].updated_at.take(
            candidates[k].updated_at.len() as int,
        )),
        candidates[j].updated_at == candidates[k].updated_at ==> k <= j,
{
    let a = candidates[k].updated_at;
    let b = candidates[j].updated_at;
    assert(own_host(hosts, current, j));
    if 0 <= n < a.len() && n < b.len() && a.take(n) == b.take(n) && a[n] < b[n] {
        texts_are_ordered_by_their_first_difference(a, b, n);
    }
    if a.len() < b.len() && a == b.take(a.len() as int) {
        a_beginning_of_a_text_comes_first(a, b);
    }
    if a == b {
        assert(a =~= b.take(a.len() as int));
        a_beginning_of_a_text_comes_first(a, b);
    }
}

/// The candidates are the listed entries that meet the demands, every one of
/// them, and nothing else.
pub proof fn candidates_are_the_matching_entries(
    values: Seq<JsonView>,
    c: ConstraintsView,
    e: EntryView,
)
    ensures
        candidates_of(values, c).contains(e) <==> entry_matches(e, c) && exists|i: int|
            0 <= i < values.len() && #[trigger] entry_of(values[i]) == Some(e),
    decreases values.len(),
{
    if values.len() > 0 {
        let rest = values.drop_last();
        candidates_are_the_matching_entries(rest, c, e);
        let before = candidates_of(rest, c);
        let all = candidates_of(values, c);
        if entry_of(values.last()) == Some(e) && entry_matches(e, c) {
            assert(entry_of(values[values.len() - 1]) == Some(e));
            assert(all[all.len() - 1] == e);
        }
        if before.contains(e) {
            let i = choose|i: int| 0 <= i < before.len() && before[i] == e;
            assert(all[i] == e);
            let i = choose|i: int| 0 <= i < rest.len() && #[trigger] entry_of(rest[i]) == Some(e);
            assert(entry_of(values[i]) == Some(e));
        }
        if all.contains(e) && !before.contains(e) {
            let i = choose|i: int| 0 <= i < all.len() && all[i] == e;
            if i < before.len() {
                assert(before[i] == e);
            }
            assert(entry_of(values[values.len() - 1]) == Some(e));
        }
        if entry_matches(e, c) && exists|i: int|
            0 <= i < values.len() && #[trigger] entry_of(values[i]) == Some(e) {
            let i = choose|i: int| 0 <= i < values.len() && #[trigger] entry_of(values[i]) == Some(
                e,
            );
            if i < rest.len() {
                assert(entry_of(rest[i]) == Some(e));
            }
        }
    }
}

/// What is chosen is the candidate of the running host that was updated last:
/// the date of no other of that host is greater in the first character that
/// differs, or goes on where its own ends; and of those with one date it is the
/// first. Nothing is chosen only where no candidate is of that host.
pub proof fn the_choice_is_the_latest(
    candidates: Vec<RuntimeEntry>,
    hosts: Vec<Option<FileIdentity>>,
    current: FileIdentity,
    r: RuntimeResult<RuntimeEntry>,
    j: int,
    n: int,
)
    requires
        call_ensures(choose_entry, (candidates, &hosts, current), r),
        0 <= j < candidates@.len(),
        j < hosts@.len(),
        hosts@[j] == Some(current),
    ensures
        r is Ok,
        !(0 <= n < r->Ok_0.updated_at@.len() && n < candidates@[j].updated_at@.len()
            && r->Ok_0.updated_at@.take(n) == candidates@[j].updated_at@.take(n)
            && r->Ok_0.updated_at@[n] < candidates@[j].updated_at@[n]),
        !(r->Ok_0.updated_at@.len() < candidates@[j].updated_at@.len() && r->Ok_0.updated_at@
            == candidates@[j].updated_at@.take(r->Ok_0.updated_at@.len() as int)),
        exists|k: int|
            0 <= k < candidates@.len() && k < hosts@.len() && hosts@[k] == Some(current)
                && #[trigger] candidates@[k] == r->Ok_0 && (candidates@[j].updated_at@
                == r->Ok_0.updated_at@ ==> k <= j),
{
    let views = entries_view(candidates@);
    assert(own_host(hosts@, current, j));
    assert(views[j] == candidates@[j]@);
    assert(choice_made(r, candidates@, hosts@, current));
    let entry = r->Ok_0;
    let k = choose|k: int|
        #[trigger] chosen(views, hosts@, current, k) && entry == candidates@[k];
    assert(views[k] == candidates@[k]@);
    the_latest_entry_of_the_host_is_chosen(views, hosts@, current, k, j, n);
    assert(candidates@[k] == r->Ok_0);
}

/// Nothing is chosen where no candidate is of the running host, and that is
/// told.
pub proof fn nothing_is_chosen_for_another_host(
    candidates: Vec<RuntimeEntry>,
    hosts: Vec<Option<FileIdentity>>,
    current: FileIdentity,
    r: RuntimeResult<RuntimeEntry>,
)
    requires
        call_ensures(choose_entry, (candidates, &hosts, current), r),
        forall|j: int| 0 <= j < hosts@.len() ==> #[trigger] hosts@[j] != Some(current),
    ensures
        r matches Err(error) && error@ == (ErrorView {
            code: 1,
            kind: Some("no_matching_codex_install"@),
            message: "No compatible Codex app-server entry was found"@,
        }),
{
    if r is Ok {
        let views = entries_view(candidates@);
        let k = choose|k: int|
            #[trigger] chosen(views, hosts@, current, k) && r->Ok_0 == candidates@[k];
        assert(hosts@[k] == Some(current));
    }
}

/// The entries that match are those that the values list and that meet the
/// demand, in their order.
pub proof fn what_matches_is_what_is_listed(
    values: Vec<Json>,
    demand: RuntimeConstraints,
    r: Vec<RuntimeEntry>,
    i: int,
)
    requires
        call_ensures(matching_entries, (&values, &demand), r),
        0 <= i < r@.len(),
    ensures
        entry_matches(r@[i]@, demand@),
        exists|k: int| 0 <= k < values@.len() && #[trigger] entry_of(values@[k]@) == Some(r@[i]@),
        r@.len() == candidates_of(items_view(values@), demand@).len(),
        r@[i]@ == candidates_of(items_view(values@), demand@)[i],
{
    let views = entries_view(r@);
    let listed = items_view(values@);
    lemma_items_view(values@);
    assert(views[i] == r@[i]@);
    assert(candidates_of(listed, demand@)[i] == r@[i]@);
    candidates_are_the_matching_entries(listed, demand@, r@[i]@);
    let k = choose|k: int|
        0 <= k < listed.len() && #[trigger] entry_of(listed[k]) == Some(r@[i]@);
    assert(listed[k] == values@[k]@);
    assert(entry_of(values@[k]@) == Some(r@[i]@));
}

/// What manifests list is collected in their order, where none of them is at
/// fault.
pub proof fn what_manifests_list_is_collected(
    reads: Vec<ManifestRead>,
    r: RuntimeResult<Vec<Json>>,
)
    requires
        call_ensures(manifest_entries, (reads,), r),
    ensures
        r is Ok <==> manifests_fault(reads@) is None,
        r matches Ok(values) ==> items_view(values@) == listed(reads@),
        r matches Err(error) ==> Some(error@) == manifests_fault(reads@),
        reads@.len() == 1 && (reads@[0] matches ManifestRead::Parsed(manifest)
            && manifest.schema_version == 2) ==> r is Ok && r->Ok_0@.len()
            == reads@[0]->Parsed_0.entries@.len() && forall|i: int|
            0 <= i < r->Ok_0@.len() ==> (#[trigger] r->Ok_0@[i])@
                == reads@[0]->Parsed_0.entries@[i]@,
{
    if reads@.len() == 1 && reads@[0] is Parsed && reads@[0]->Parsed_0.schema_version == 2 {
        manifests_in_order_are_used(reads@);
        assert(reads@[0] is Parsed);
        manifests_are_taken_in_their_order(reads@, Seq::empty());
        assert(reads@ + Seq::empty() =~= reads@);
        let written = reads@[0]->Parsed_0.entries@;
        let values = r->Ok_0@;
        lemma_items_view(values);
        lemma_items_view(written);
        assert forall|i: int| 0 <= i < values.len() implies (#[trigger] values[i])@
            == written[i]@ by {
            assert(items_view(values)[i] == values[i]@);
            assert(items_view(written)[i] == written[i]@);
        }
    }
}

} // verus!
