//! Sequences cut into fields at a separator.
use vstd::prelude::*;

verus! {

/// The fields of `s` between the separators; one empty field if `s` is empty.
pub open spec fn fields<T>(s: Seq<T>, separator: T) -> Seq<Seq<T>>
    decreases s.len(),
{
    if s.len() == 0 {
        seq![Seq::empty()]
    } else {
        let before = fields(s.drop_last(), separator);
        if s.last() == separator {
            before.push(Seq::empty())
        } else {
            before.drop_last().push(before.last().push(s.last()))
        }
    }
}

/// The fields with one separator between each two.
pub open spec fn joined<T>(parts: Seq<Seq<T>>, separator: T) -> Seq<T>
    decreases parts.len(),
{
    if parts.len() == 0 {
        Seq::empty()
    } else if parts.len() == 1 {
        parts[0]
    } else {
        joined(parts.drop_last(), separator).push(separator) + parts.last()
    }
}

/// There is always a field.
pub proof fn lemma_fields_nonempty<T>(s: Seq<T>, separator: T)
    ensures
        fields(s, separator).len() > 0,
    decreases s.len(),
{
    if s.len() > 0 {
        lemma_fields_nonempty(s.drop_last(), separator);
    }
}

/// Cutting a sequence into fields loses nothing: no field holds the separator,
/// and the fields joined again are the sequence.
pub proof fn fields_joined_give_back_the_sequence<T>(s: Seq<T>, separator: T)
    ensures
        joined(fields(s, separator), separator) == s,
        forall|i: int|
            0 <= i < fields(s, separator).len() ==> !(#[trigger] fields(s, separator)[i]).contains(
                separator,
            ),
    decreases s.len(),
{
    lemma_fields_nonempty(s, separator);
    let cut = fields(s, separator);
    if s.len() == 0 {
        assert(joined(cut, separator) =~= s);
    } else {
        let rest = s.drop_last();
        let before = fields(rest, separator);
        lemma_fields_nonempty(rest, separator);
        fields_joined_give_back_the_sequence(rest, separator);
        if s.last() == separator {
            assert(cut.drop_last() =~= before);
            assert(joined(cut, separator) =~= s);
        } else {
            let tail = before.last();
            assert(cut.drop_last() =~= before.drop_last());
            assert(cut.last() == tail.push(s.last()));
            assert(joined(cut, separator) =~= joined(before, separator).push(s.last()));
            assert(joined(cut, separator) =~= s);
            assert forall|i: int| 0 <= i < cut.len() implies !(#[trigger] cut[i]).contains(
                separator,
            ) by {
                if i < cut.len() - 1 {
                    assert(cut[i] == before[i]);
                } else {
                    assert(!before[before.len() - 1].contains(separator));
                    if cut[i].contains(separator) {
                        let k = choose|k: int| 0 <= k < cut[i].len() && cut[i][k] == separator;
                        assert(k < tail.len());
                        assert(tail[k] == separator);
                        assert(tail.contains(separator));
                    }
                }
            }
        }
    }
}

/// No field holds the separator.
pub proof fn fields_hold_no_separator<T>(s: Seq<T>, separator: T, i: int)
    requires
        0 <= i < fields(s, separator).len(),
    ensures
        !fields(s, separator)[i].contains(separator),
    decreases s.len(),
{
    if s.len() > 0 {
        let before = fields(s.drop_last(), separator);
        lemma_fields_nonempty(s.drop_last(), separator);
        if i < before.len() {
            fields_hold_no_separator(s.drop_last(), separator, i);
        }
        let field = fields(s, separator)[i];
        assert forall|k: int| 0 <= k < field.len() implies field[k] != separator by {
            if i < before.len() && k < before[i].len() {
                assert(before[i].contains(before[i][k]));
            }
        }
    }
}

/// A sequence without the separator is one field.
pub proof fn lemma_single_field<T>(s: Seq<T>, separator: T)
    requires
        !s.contains(separator),
    ensures
        fields(s, separator) == seq![s],
    decreases s.len(),
{
    if s.len() == 0 {
        assert(s =~= Seq::empty());
    } else {
        assert(s.last() == s[s.len() - 1]);
        assert forall|k: int| 0 <= k < s.drop_last().len() implies s.drop_last()[k] != separator by {
            assert(s[k] == s.drop_last()[k]);
        }
        lemma_single_field(s.drop_last(), separator);
        assert(s.drop_last().push(s.last()) =~= s);
        assert(fields(s, separator) =~= seq![s]);
    }
}

/// What stands behind a separator, and holds none itself, is one more field.
pub proof fn lemma_one_more_field<T>(head: Seq<T>, separator: T, tail: Seq<T>)
    requires
        !tail.contains(separator),
    ensures
        fields(head.push(separator) + tail, separator) == fields(head, separator).push(tail),
    decreases tail.len(),
{
    let whole = head.push(separator) + tail;
    if tail.len() == 0 {
        assert(whole =~= head.push(separator));
        assert(whole.drop_last() =~= head);
        assert(tail =~= Seq::empty());
    } else {
        let shorter = tail.drop_last();
        assert(tail.last() == tail[tail.len() - 1]);
        assert forall|k: int| 0 <= k < shorter.len() implies shorter[k] != separator by {
            assert(tail[k] == shorter[k]);
        }
        lemma_one_more_field(head, separator, shorter);
        assert(whole.drop_last() =~= head.push(separator) + shorter);
        assert(shorter.push(tail.last()) =~= tail);
        assert(fields(whole, separator) =~= fields(head, separator).push(tail));
    }
}

/// Where `x` stands first in `s` from `i` on; the end of `s` if nowhere.
pub open spec fn first_from<T>(s: Seq<T>, x: T, i: int) -> int
    decreases s.len() - i,
{
    if i >= s.len() || s[i] == x {
        i
    } else {
        first_from(s, x, i + 1)
    }
}

/// Where `x` stands first in `s`; the end of `s` if nowhere.
pub open spec fn first_at<T>(s: Seq<T>, x: T) -> int {
    first_from(s, x, 0)
}

/// What `first_from` finds is the first one.
pub proof fn lemma_first_from<T>(s: Seq<T>, x: T, i: int)
    requires
        0 <= i <= s.len(),
    ensures
        i <= first_from(s, x, i) <= s.len(),
        forall|j: int| i <= j < first_from(s, x, i) ==> s[j] != x,
        first_from(s, x, i) < s.len() ==> s[first_from(s, x, i)] == x,
    decreases s.len() - i,
{
    if i < s.len() && s[i] != x {
        lemma_first_from(s, x, i + 1);
    }
}

/// What first fits is where `x` stands first.
pub proof fn lemma_first_at<T>(s: Seq<T>, x: T, at: int)
    requires
        0 <= at <= s.len(),
        forall|j: int| 0 <= j < at ==> s[j] != x,
        at < s.len() ==> s[at] == x,
    ensures
        first_at(s, x) == at,
{
    lemma_first_from(s, x, 0);
    let found = first_at(s, x);
    if found < at {
        assert(s[found] != x);
    }
}

/// The contents of vectors of items.
pub open spec fn contents<T>(parts: Seq<Vec<T>>) -> Seq<Seq<T>> {
    parts.map_values(|part: Vec<T>| part@)
}

/// Cuts text into fields.
pub fn split_chars(s: &[char], separator: char) -> (r: Vec<Vec<char>>)
    ensures
        contents(r@) == fields(s@, separator),
        r@.len() > 0,
{
    let mut out: Vec<Vec<char>> = Vec::new();
    let mut current: Vec<char> = Vec::new();
    assert(s@.take(0).len() == 0);
    for i in 0..s.len()
        invariant
            contents(out@).push(current@) == fields(s@.take(i as int), separator),
    {
        let ghost done = contents(out@);
        let ghost open = current@;
        assert(s@.take(i + 1).drop_last() == s@.take(i as int));
        assert(done.push(open).drop_last() =~= done);
        if s[i] == separator {
            out.push(current);
            current = Vec::new();
            assert(contents(out@) =~= done.push(open));
        } else {
            current.push(s[i]);
        }
    }
    assert(s@.take(s@.len() as int) == s@);
    let ghost done = contents(out@);
    out.push(current);
    assert(contents(out@) =~= done.push(current@));
    out
}

/// Cuts bytes into fields.
pub fn split_bytes(s: &[u8], separator: u8) -> (r: Vec<Vec<u8>>)
    ensures
        contents(r@) == fields(s@, separator),
        r@.len() > 0,
{
    let mut out: Vec<Vec<u8>> = Vec::new();
    let mut current: Vec<u8> = Vec::new();
    assert(s@.take(0).len() == 0);
    for i in 0..s.len()
        invariant
            contents(out@).push(current@) == fields(s@.take(i as int), separator),
    {
        let ghost done = contents(out@);
        let ghost open = current@;
        assert(s@.take(i + 1).drop_last() == s@.take(i as int));
        assert(done.push(open).drop_last() =~= done);
        if s[i] == separator {
            out.push(current);
            current = Vec::new();
            assert(contents(out@) =~= done.push(open));
        } else {
            current.push(s[i]);
        }
    }
    assert(s@.take(s@.len() as int) == s@);
    let ghost done = contents(out@);
    out.push(current);
    assert(contents(out@) =~= done.push(current@));
    out
}

} // verus!
