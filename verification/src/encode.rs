//! Hexadecimal text, SHA-256 digests and random tokens.
use vstd::prelude::*;

verus! {

/// `getrandom::Error`, carried as an opaque value.
#[verifier::external_type_specification]
#[verifier::external_body]
pub struct ExRandomError(getrandom::Error);

/// The hexadecimal digit that stands for a number below sixteen.
pub open spec fn hex_digit(n: int) -> char {
    "0123456789abcdef"@[n]
}

/// Whether a character is a lower-case hexadecimal digit.
pub open spec fn is_hex_digit(c: char) -> bool {
    '0' <= c <= '9' || 'a' <= c <= 'f'
}

/// The hexadecimal text of some bytes: two digits each, the high one first.
pub open spec fn hex_text(bytes: Seq<u8>) -> Seq<char> {
    Seq::new(
        2 * bytes.len(),
        |i: int|
            hex_digit(
                if i % 2 == 0 {
                    bytes[i / 2] as int / 16
                } else {
                    bytes[i / 2] as int % 16
                },
            ),
    )
}

/// A digit of hexadecimal text is a lower-case hexadecimal digit.
pub proof fn lemma_hex_digit(n: int)
    requires
        0 <= n < 16,
    ensures
        is_hex_digit(hex_digit(n)),
{
    reveal_strlit("0123456789abcdef");
}

/// Hexadecimal text is made of lower-case hexadecimal digits.
pub proof fn lemma_hex_text(bytes: Seq<u8>)
    ensures
        hex_text(bytes).len() == 2 * bytes.len(),
        forall|i: int| 0 <= i < hex_text(bytes).len() ==> is_hex_digit(#[trigger] hex_text(bytes)[i]),
{
    assert forall|i: int| 0 <= i < hex_text(bytes).len() implies is_hex_digit(
        #[trigger] hex_text(bytes)[i],
    ) by {
        let n = if i % 2 == 0 {
            bytes[i / 2] as int / 16
        } else {
            bytes[i / 2] as int % 16
        };
        lemma_hex_digit(n);
    }
}

/// The digit of a number below sixteen.
pub fn digit_of(n: u8) -> (c: char)
    requires
        n < 16,
    ensures
        c == hex_digit(n as int),
{
    proof {
        reveal_strlit("0123456789abcdef");
    }
    match n {
        0 => '0',
        1 => '1',
        2 => '2',
        3 => '3',
        4 => '4',
        5 => '5',
        6 => '6',
        7 => '7',
        8 => '8',
        9 => '9',
        10 => 'a',
        11 => 'b',
        12 => 'c',
        13 => 'd',
        14 => 'e',
        _ => 'f',
    }
}

/// Writes bytes as lower-case hexadecimal text.
pub fn hex_encode(bytes: &[u8]) -> (r: String)
    ensures
        r@ == hex_text(bytes@),
{
    let mut output = String::new();
    for i in 0..bytes.len()
        invariant
            output@ == hex_text(bytes@.take(i as int)),
    {
        let byte = bytes[i];
        assert(byte >> 4 == byte / 16 && byte & 0x0f == byte % 16) by (bit_vector);
        output.push(digit_of(byte >> 4));
        output.push(digit_of(byte & 0x0f));
        assert(output@ =~= hex_text(bytes@.take(i + 1)));
    }
    assert(bytes@.take(bytes@.len() as int) == bytes@);
    output
}

/// What `sha2::Sha256` makes of some bytes.
pub uninterp spec fn sha256(data: Seq<u8>) -> Seq<u8>;

/// `sha2::Sha256::digest`: a function of the data alone, 32 bytes long.
#[verifier::external_body]
fn sha256_digest(data: &[u8]) -> (r: Vec<u8>)
    ensures
        r@ == sha256(data@),
        r@.len() == 32,
{
    <sha2::Sha256 as sha2::Digest>::digest(data).to_vec()
}

/// The SHA-256 digest of some bytes, in hexadecimal.
pub fn sha256_hex(data: &[u8]) -> (r: String)
    ensures
        r@ == hex_text(sha256(data@)),
        r@.len() == 64,
{
    hex_encode(sha256_digest(data).as_slice())
}

/// The first sixteen hexadecimal digits of the SHA-256 digest of some bytes.
pub open spec fn short_hash_text(value: Seq<u8>) -> Seq<char> {
    hex_text(sha256(value)).take(16)
}

/// The first sixteen hexadecimal digits of the SHA-256 digest of some bytes.
pub fn short_hash(value: &[u8]) -> (r: String)
    ensures
        r@ == short_hash_text(value@),
        r@.len() == 16,
        forall|i: int| 0 <= i < r@.len() ==> is_hex_digit(#[trigger] r@[i]),
{
    let digest = sha256_digest(value);
    proof {
        lemma_hex_text(sha256(value@));
        lemma_hex_text(digest@.take(8));
        assert(hex_text(digest@.take(8)) =~= hex_text(digest@).take(16));
    }
    hex_encode(vstd::slice::slice_subrange(digest.as_slice(), 0, 8))
}

/// `getrandom::fill`: overwrites the whole buffer, whose length stays. It
/// succeeds at once where the buffer is empty; elsewhere the system decides
/// whether it does. Nothing is said of the bytes.
#[verifier::external_body]
fn fill_random(buffer: &mut Vec<u8>) -> (r: Result<(), getrandom::Error>)
    ensures
        final(buffer)@.len() == old(buffer)@.len(),
        old(buffer)@.len() == 0 ==> r is Ok,
{
    getrandom::fill(buffer)
}

/// The text that `getrandom::Error` displays; nothing is said of it.
#[verifier::external_body]
fn random_error_text(error: &getrandom::Error) -> (r: String) {
    error.to_string()
}

/// Whether a text is that many bytes in hexadecimal.
pub open spec fn random_text(s: Seq<char>, byte_count: nat) -> bool {
    s.len() == 2 * byte_count && forall|i: int| 0 <= i < s.len() ==> is_hex_digit(#[trigger] s[i])
}

/// Whether what was drawn is that many random bytes in hexadecimal, or the
/// reason why nothing was.
pub open spec fn drawn_or_not(random: Result<Seq<char>, Seq<char>>, byte_count: nat) -> bool {
    random matches Ok(s) ==> random_text(s, byte_count)
}

/// The hexadecimal text of bytes that were drawn, or why none were.
pub fn hex_of_drawn(bytes: Result<Vec<u8>, String>) -> (r: Result<String, String>)
    ensures
        match bytes {
            Ok(bytes) => r is Ok && r->Ok_0@ == hex_text(bytes@),
            Err(error) => r == Err::<String, String>(error),
        },
{
    match bytes {
        Ok(bytes) => Ok(hex_encode(bytes.as_slice())),
        Err(error) => Err(error),
    }
}

/// As many random bytes as asked for, in hexadecimal, or why there are none.
/// No bytes can always be had; of others the system decides.
pub fn random_hex(byte_count: usize) -> (r: Result<String, String>)
    ensures
        byte_count == 0 ==> r is Ok,
        r matches Ok(s) ==> random_text(s@, byte_count as nat) && exists|bytes: Seq<u8>|
            bytes.len() == byte_count && s@ == #[trigger] hex_text(bytes),
{
    let mut bytes: Vec<u8> = vec![0u8; byte_count];
    match fill_random(&mut bytes) {
        Ok(()) => {
            proof {
                lemma_hex_text(bytes@);
            }
            hex_of_drawn(Ok(bytes))
        },
        Err(error) => hex_of_drawn(Err(random_error_text(&error))),
    }
}

/// Hexadecimal text tells bytes apart.
pub proof fn hex_text_tells_bytes_apart(a: Seq<u8>, b: Seq<u8>)
    ensures
        hex_text(a) == hex_text(b) <==> a == b,
{
    if hex_text(a) == hex_text(b) {
        reveal_strlit("0123456789abcdef");
        assert(hex_text(a).len() == 2 * a.len() && hex_text(b).len() == 2 * b.len());
        assert forall|i: int| 0 <= i < a.len() implies a[i] == b[i] by {
            assert(hex_text(a)[2 * i] == hex_text(b)[2 * i]);
            assert(hex_text(a)[2 * i + 1] == hex_text(b)[2 * i + 1]);
            lemma_hex_digits_differ(a[i] as int / 16, b[i] as int / 16);
            lemma_hex_digits_differ(a[i] as int % 16, b[i] as int % 16);
        }
        assert(a =~= b);
    }
}

/// Hexadecimal digits tell numbers below sixteen apart.
proof fn lemma_hex_digits_differ(a: int, b: int)
    requires
        0 <= a < 16,
        0 <= b < 16,
        hex_digit(a) == hex_digit(b),
    ensures
        a == b,
{
    reveal_strlit("0123456789abcdef");
}

} // verus!
