//! File paths as bytes: joining, comparing, and what their last part is.
use crate::fields::{contents, fields, split_bytes};
use vstd::prelude::*;
use vstd::slice::{slice_subrange, slice_to_vec};
use vstd::string::*;
use vstd::utf8::{decode_utf8, encode_utf8, valid_utf8};

verus! {

/// The slash that parts of a path are separated by.
pub const SLASH: u8 = 47;

/// The dot that stands before a file's extension.
pub const DOT: u8 = 46;

/// Whether two byte strings are the same.
pub fn same_bytes(a: &[u8], b: &[u8]) -> (r: bool)
    ensures
        r == (a@ == b@),
{
    if a.len() != b.len() {
        return false;
    }
    for i in 0..a.len()
        invariant
            a@.len() == b@.len(),
            forall|j: int| 0 <= j < i ==> a@[j] == b@[j],
    {
        if a[i] != b[i] {
            return false;
        }
    }
    assert(a@ =~= b@);
    true
}

/// The first bytes followed by the second.
pub fn cat_bytes(a: &[u8], b: &[u8]) -> (r: Vec<u8>)
    ensures
        r@ == a@ + b@,
{
    let mut out: Vec<u8> = Vec::new();
    for i in 0..a.len()
        invariant
            out@ == a@.take(i as int),
    {
        out.push(a[i]);
        assert(a@.take(i + 1) =~= a@.take(i as int).push(a@[i as int]));
    }
    assert(a@.take(a@.len() as int) =~= a@);
    for i in 0..b.len()
        invariant
            out@ == a@ + b@.take(i as int),
    {
        out.push(b[i]);
        assert(a@ + b@.take(i + 1) =~= (a@ + b@.take(i as int)).push(b@[i as int]));
    }
    assert(b@.take(b@.len() as int) =~= b@);
    out
}

/// Whether a path starts at the root.
pub open spec fn absolute(path: Seq<u8>) -> bool {
    path.len() > 0 && path[0] == SLASH
}

/// Whether a path starts at the root.
pub fn is_absolute(path: &[u8]) -> (r: bool)
    ensures
        r == absolute(path@),
{
    path.len() > 0 && path[0] == SLASH
}

/// `leaf` below `base`, one slash between them; an absolute leaf stands alone.
pub open spec fn path_join(base: Seq<u8>, leaf: Seq<u8>) -> Seq<u8> {
    if absolute(leaf) {
        leaf
    } else if base.len() == 0 || base.last() == SLASH {
        base + leaf
    } else {
        base.push(SLASH) + leaf
    }
}

/// `leaf` below `base`.
pub fn join_path(base: &[u8], leaf: &str) -> (r: Vec<u8>)
    ensures
        r@ == path_join(base@, encode_utf8(leaf@)),
{
    let tail = leaf.as_bytes();
    if is_absolute(tail) {
        slice_to_vec(tail)
    } else if base.len() == 0 || base[base.len() - 1] == SLASH {
        cat_bytes(base, tail)
    } else {
        let mut head = slice_to_vec(base);
        head.push(SLASH);
        cat_bytes(head.as_slice(), tail)
    }
}

/// Whether a part of a path says nothing: it is empty or a single dot.
pub open spec fn idle_part(part: Seq<u8>) -> bool {
    part.len() == 0 || part == seq![DOT]
}

/// The parts that say something, in order.
pub open spec fn telling_parts(parts: Seq<Seq<u8>>) -> Seq<Seq<u8>>
    decreases parts.len(),
{
    if parts.len() == 0 {
        Seq::empty()
    } else if idle_part(parts.last()) {
        telling_parts(parts.drop_last())
    } else {
        telling_parts(parts.drop_last()).push(parts.last())
    }
}

/// The parts of a path, without empty ones and single dots.
pub open spec fn path_parts(path: Seq<u8>) -> Seq<Seq<u8>> {
    telling_parts(fields(path, SLASH))
}

/// Whether a path is relative and starts with a single dot.
pub open spec fn starts_here(path: Seq<u8>) -> bool {
    fields(path, SLASH)[0] == seq![DOT]
}

/// Whether two paths are the same part by part.
pub open spec fn same_path_as(a: Seq<u8>, b: Seq<u8>) -> bool {
    absolute(a) == absolute(b) && starts_here(a) == starts_here(b) && path_parts(a) == path_parts(b)
}

/// Cuts a path into its parts.
fn parts_of(path: &[u8]) -> (r: Vec<Vec<u8>>)
    ensures
        contents(r@) == path_parts(path@),
{
    let all = split_bytes(path, SLASH);
    let ghost cut = contents(all@);
    let mut out: Vec<Vec<u8>> = Vec::new();
    assert(cut.take(0).len() == 0);
    assert(contents(out@) =~= telling_parts(cut.take(0)));
    for i in 0..all.len()
        invariant
            cut == contents(all@),
            contents(out@) == telling_parts(cut.take(i as int)),
    {
        assert(cut.take(i + 1).drop_last() =~= cut.take(i as int));
        assert(cut[i as int] == all@[i as int]@);
        let part = &all[i];
        let dot: [u8; 1] = [DOT];
        assert(dot@ =~= seq![DOT]);
        if part.len() != 0 && !same_bytes(part.as_slice(), &dot) {
            let ghost before = contents(out@);
            out.push(slice_to_vec(part.as_slice()));
            assert(contents(out@).last() =~= part@);
            assert(contents(out@) =~= before.push(part@));
        }
    }
    assert(cut.take(cut.len() as int) =~= cut);
    out
}

/// Whether two paths are the same part by part.
pub fn same_path(a: &[u8], b: &[u8]) -> (r: bool)
    ensures
        r == same_path_as(a@, b@),
{
    let a_cut = split_bytes(a, SLASH);
    let b_cut = split_bytes(b, SLASH);
    let dot: [u8; 1] = [DOT];
    assert(dot@ =~= seq![DOT]);
    assert(contents(a_cut@)[0] == a_cut@[0]@);
    assert(contents(b_cut@)[0] == b_cut@[0]@);
    if is_absolute(a) != is_absolute(b) || same_bytes(a_cut[0].as_slice(), &dot) != same_bytes(
        b_cut[0].as_slice(),
        &dot,
    ) {
        return false;
    }
    let a_parts = parts_of(a);
    let b_parts = parts_of(b);
    if a_parts.len() != b_parts.len() {
        assert(contents(a_parts@).len() != contents(b_parts@).len());
        return false;
    }
    for i in 0..a_parts.len()
        invariant
            a_parts@.len() == b_parts@.len(),
            contents(a_parts@) == path_parts(a@),
            contents(b_parts@) == path_parts(b@),
            forall|j: int| 0 <= j < i ==> #[trigger] a_parts@[j]@ == b_parts@[j]@,
    {
        if !same_bytes(a_parts[i].as_slice(), b_parts[i].as_slice()) {
            assert(contents(a_parts@)[i as int] != contents(b_parts@)[i as int]);
            return false;
        }
    }
    assert(contents(a_parts@) =~= contents(b_parts@));
    true
}

/// Where `b` stands last in `s` before `n`; nothing if nowhere.
pub open spec fn last_before(s: Seq<u8>, b: u8, n: int) -> Option<int>
    decreases n,
{
    if n <= 0 {
        None
    } else if s[n - 1] == b {
        Some(n - 1)
    } else {
        last_before(s, b, n - 1)
    }
}

/// What stands behind the last dot of a path's last part. There is none where
/// the last part leads upwards, has no dot, or has its only dot in front.
pub open spec fn extension(path: Seq<u8>) -> Option<Seq<u8>> {
    let parts = path_parts(path);
    if parts.len() == 0 || parts.last() == seq![DOT, DOT] {
        None
    } else {
        let name = parts.last();
        match last_before(name, DOT, name.len() as int) {
            Some(at) => if at > 0 {
                Some(name.skip(at + 1))
            } else {
                None
            },
            None => None,
        }
    }
}

/// What stands behind the last dot of a path's last part.
pub fn path_extension(path: &[u8]) -> (r: Option<Vec<u8>>)
    ensures
        match r {
            Some(found) => extension(path@) == Some(found@),
            None => extension(path@) is None,
        },
{
    let parts = parts_of(path);
    if parts.len() == 0 {
        return None;
    }
    let name = &parts[parts.len() - 1];
    assert(contents(parts@).last() == name@);
    let up: [u8; 2] = [DOT, DOT];
    assert(up@ =~= seq![DOT, DOT]);
    if same_bytes(name.as_slice(), &up) {
        return None;
    }
    let mut n: usize = name.len();
    while n > 0
        invariant
            n <= name@.len(),
            last_before(name@, DOT, name@.len() as int) == last_before(name@, DOT, n as int),
        ensures
            n > 0 ==> name@[n - 1] == DOT,
        decreases n,
    {
        if name[n - 1] == DOT {
            break;
        }
        n = n - 1;
    }
    if n > 1 {
        let found = slice_subrange(name.as_slice(), n, name.len());
        assert(found@ =~= name@.skip(n as int));
        Some(slice_to_vec(found))
    } else {
        None
    }
}

/// The text that `String::from_utf8_lossy` makes of bytes.
pub uninterp spec fn lossy_text(bytes: Seq<u8>) -> Seq<char>;

/// `String::from_utf8_lossy`: bytes that are UTF-8 give the text they encode,
/// and what other bytes give depends on the bytes alone.
#[verifier::external_body]
fn from_utf8_lossy(bytes: &[u8]) -> (r: String)
    ensures
        r@ == lossy_text(bytes@),
        valid_utf8(bytes@) ==> r@ == decode_utf8(bytes@),
{
    String::from_utf8_lossy(bytes).into_owned()
}

/// A path as it is displayed. One that is UTF-8 is displayed as it is.
pub fn display_path(path: &[u8]) -> (r: String)
    ensures
        r@ == lossy_text(path@),
        valid_utf8(path@) ==> r@ == decode_utf8(path@),
{
    from_utf8_lossy(path)
}

} // verus!
