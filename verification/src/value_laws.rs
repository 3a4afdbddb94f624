//! What holds of numbers, texts, digests, paths and addresses as they are
//! written down.
use crate::admission::query_item;
use crate::encode::{
    hex_digit, hex_encode, hex_of_drawn, hex_text, random_hex, sha256, sha256_hex,
    short_hash, short_hash_text,
};
use crate::endpoint::{
    address_text, display_address, dotted, ipv4_address, ipv6_address, is_same_address,
    local_app_server_url, loopback, proxy_bind_address, proxy_ip, same_endpoint,
    url_carries_the_token, IpAddress, IpBits, SocketAddress,
};
use crate::error::RuntimeResult;
use crate::fields::{fields, lemma_one_more_field, lemma_single_field};
use crate::json::{members_view, Json};
use crate::manifest::RuntimeEntry;
use crate::paths::{
    absolute, extension, idle_part, last_before, path_join, path_parts, telling_parts, DOT, SLASH,
};
use crate::text::{blank, decimal, decimal_text, is_blank, is_white_space};
use vstd::prelude::*;

verus! {

/// The number that decimal digits stand for.
pub open spec fn number_of(digits: Seq<char>) -> int
    decreases digits.len(),
{
    if digits.len() == 0 {
        0
    } else {
        number_of(digits.drop_last()) * 10 + (digits.last() as int - '0' as int)
    }
}

/// The digits of the hexadecimal system.
proof fn lemma_digits()
    ensures
        "0123456789abcdef"@.len() == 16,
        forall|n: int| 0 <= n < 10 ==> (#[trigger] hex_digit(n)) as int == '0' as int + n,
{
    reveal_strlit("0123456789abcdef");
    assert forall|n: int| 0 <= n < 10 implies (#[trigger] hex_digit(n)) as int == '0' as int + n by {
        assert(n == 0 || n == 1 || n == 2 || n == 3 || n == 4 || n == 5 || n == 6 || n == 7 || n
            == 8 || n == 9);
    }
}

/// A number that was written down in decimal reads back as itself: its digits
/// are digits, and there is none too many.
pub proof fn decimal_text_reads_back(n: nat)
    ensures
        number_of(decimal_text(n)) == n,
        decimal_text(n).len() > 0,
        forall|i: int| 0 <= i < decimal_text(n).len() ==> '0' <= #[trigger] decimal_text(n)[i] <= '9',
        decimal_text(n)[0] == '0' ==> n == 0,
    decreases n,
{
    lemma_digits();
    let text = decimal_text(n);
    if n < 10 {
        assert(hex_digit(n as int) as int == '0' as int + n);
        assert(text.drop_last() =~= Seq::empty());
        assert(number_of(text.drop_last()) == 0);
    } else {
        decimal_text_reads_back(n / 10);
        let rest = decimal_text(n / 10);
        assert(hex_digit((n % 10) as int) as int == '0' as int + n % 10);
        assert(text.drop_last() =~= rest);
        assert forall|i: int| 0 <= i < text.len() implies '0' <= #[trigger] text[i] <= '9' by {
            if i < rest.len() {
                assert(text[i] == rest[i]);
            }
        }
        assert(text[0] == rest[0]);
    }
}

/// A character is white space where it is one of the twenty-five that are.
pub proof fn white_space_is_one_of_twenty_five(c: char)
    ensures
        is_white_space(c) <==>
            "\u{9}\u{a}\u{b}\u{c}\u{d} \u{85}\u{a0}\u{1680}\u{2000}\u{2001}\u{2002}\u{2003}\u{2004}\u{2005}\u{2006}\u{2007}\u{2008}\u{2009}\u{200a}\u{2028}\u{2029}\u{202f}\u{205f}\u{3000}"@.contains(
        c),
{
    reveal_strlit(
        "\u{9}\u{a}\u{b}\u{c}\u{d} \u{85}\u{a0}\u{1680}\u{2000}\u{2001}\u{2002}\u{2003}\u{2004}\u{2005}\u{2006}\u{2007}\u{2008}\u{2009}\u{200a}\u{2028}\u{2029}\u{202f}\u{205f}\u{3000}",
    );
    let all =
        "\u{9}\u{a}\u{b}\u{c}\u{d} \u{85}\u{a0}\u{1680}\u{2000}\u{2001}\u{2002}\u{2003}\u{2004}\u{2005}\u{2006}\u{2007}\u{2008}\u{2009}\u{200a}\u{2028}\u{2029}\u{202f}\u{205f}\u{3000}"@;
    assert(all.len() == 25);
    if is_white_space(c) {
        let i: int = if '\u{9}' <= c <= '\u{d}' {
            c as int - 9
        } else if c == ' ' {
            5
        } else if c == '\u{85}' {
            6
        } else if c == '\u{a0}' {
            7
        } else if c == '\u{1680}' {
            8
        } else if '\u{2000}' <= c <= '\u{200a}' {
            9 + (c as int - 0x2000)
        } else if c == '\u{2028}' {
            20
        } else if c == '\u{2029}' {
            21
        } else if c == '\u{202f}' {
            22
        } else if c == '\u{205f}' {
            23
        } else {
            24
        };
        assert(all[i] == c);
    }
    if all.contains(c) {
        let i = choose|i: int| 0 <= i < all.len() && all[i] == c;
        assert(all[i] == c);
    }
}

/// A text is blank where no character of it is anything but white space, and
/// so is nothing at all.
pub proof fn a_blank_text_says_nothing(text: Seq<char>, i: int)
    requires
        blank(text),
        0 <= i < text.len(),
    ensures
        is_white_space(text[i]),
        blank(Seq::empty()),
{
}

/// Each byte is written as two digits, its high half first, out of those from
/// 0 to 9 and a to f.
pub proof fn a_byte_is_written_as_two_digits(bytes: Seq<u8>, i: int)
    requires
        0 <= i < bytes.len(),
    ensures
        hex_text(bytes).len() == 2 * bytes.len(),
        hex_text(bytes)[2 * i] == "0123456789abcdef"@[bytes[i] as int / 16],
        hex_text(bytes)[2 * i + 1] == "0123456789abcdef"@[bytes[i] as int % 16],
{
}

/// A short hash is how the digest's first eight bytes are written.
pub proof fn a_short_hash_begins_the_digest(value: Seq<u8>)
    requires
        sha256(value).len() == 32,
    ensures
        short_hash_text(value) == hex_text(sha256(value).take(8)),
        short_hash_text(value).len() == 16,
{
    assert(short_hash_text(value) =~= hex_text(sha256(value).take(8)));
}

/// An IPv4 address is written as its four bytes, the highest first, and is one
/// of the machine itself where the first of them is 127.
pub proof fn an_ipv4_address_is_written_byte_by_byte(bits: u32, a: int, b: int, c: int, d: int)
    requires
        0 <= a < 256,
        0 <= b < 256,
        0 <= c < 256,
        0 <= d < 256,
        bits == a * 0x100_0000 + b * 0x1_0000 + c * 0x100 + d,
    ensures
        dotted(bits) == decimal_text(a as nat) + "."@ + decimal_text(b as nat) + "."@
            + decimal_text(c as nat) + "."@ + decimal_text(d as nat),
        loopback(IpBits::V4(bits)) <==> a == 127,
{
    assert(bits as int / 0x100_0000 == a);
    assert(bits as int / 0x1_0000 % 0x100 == b);
    assert(bits as int / 0x100 % 0x100 == c);
    assert(bits as int % 0x100 == d);
}

/// One IPv6 address is the machine's own.
pub proof fn one_ipv6_address_is_the_machines_own(bits: u128)
    ensures
        loopback(IpBits::V6(bits)) <==> bits == 1,
{
}

/// `localhost` stands for the address that it usually does, whatever else it
/// might be read as; any other host stands for what it is read as.
pub proof fn a_host_stands_for_its_address(host: Seq<char>, parsed: Option<IpAddress>)
    ensures
        host == "localhost"@ ==> proxy_ip(host, parsed) == Some(
            (IpBits::V4(0x7f00_0001), "127.0.0.1"@),
        ),
        host != "localhost"@ ==> (proxy_ip(host, parsed) is Some <==> parsed is Some),
        host != "localhost"@ && parsed is Some ==> proxy_ip(host, parsed) == Some(
            (parsed->Some_0.bits, parsed->Some_0.text@),
        ),
{
}

/// Two addresses are one where both the machine and the port are.
pub proof fn an_endpoint_is_an_address_and_a_port(a: SocketAddress, b: SocketAddress)
    ensures
        same_endpoint(a, b) <==> a.ip.bits == b.ip.bits && a.port == b.port,
{
}

/// An endpoint is written as the address, in brackets where it is IPv6, a colon
/// and the port.
pub proof fn an_endpoint_is_written_with_its_port(address: SocketAddress)
    ensures
        address.ip.bits is V4 ==> address_text(address) == address.ip.text@ + ":"@ + decimal_text(
            address.port as nat,
        ),
        address.ip.bits is V6 ==> address_text(address) == "["@ + address.ip.text@ + "]"@ + ":"@
            + decimal_text(address.port as nat),
{
}

/// What stands behind a separator goes on with fields of its own.
proof fn lemma_fields_concat<T>(head: Seq<T>, separator: T, tail: Seq<T>)
    ensures
        fields(head.push(separator) + tail, separator) == fields(head, separator) + fields(
            tail,
            separator,
        ),
        fields(tail, separator).len() > 0,
    decreases tail.len(),
{
    let whole = head.push(separator) + tail;
    if tail.len() == 0 {
        assert(whole =~= head.push(separator));
        assert(whole.drop_last() =~= head);
        assert(fields(whole, separator) =~= fields(head, separator) + fields(tail, separator));
    } else {
        let shorter = tail.drop_last();
        lemma_fields_concat(head, separator, shorter);
        assert(whole.drop_last() =~= head.push(separator) + shorter);
        assert(whole.last() == tail.last());
        assert(fields(whole, separator) =~= fields(head, separator) + fields(tail, separator));
    }
}

/// The telling parts of two paths, one behind the other.
proof fn lemma_telling_concat(a: Seq<Seq<u8>>, b: Seq<Seq<u8>>)
    ensures
        telling_parts(a + b) == telling_parts(a) + telling_parts(b),
    decreases b.len(),
{
    if b.len() == 0 {
        assert(a + b =~= a);
        assert(telling_parts(a) + telling_parts(b) =~= telling_parts(a));
    } else {
        assert((a + b).drop_last() =~= a + b.drop_last());
        lemma_telling_concat(a, b.drop_last());
        assert(telling_parts(a + b) =~= telling_parts(a) + telling_parts(b));
    }
}

/// A relative path below another goes on where that ends: its parts are those
/// of the one followed by those of the other. An absolute one stands alone.
pub proof fn a_joined_path_goes_on(base: Seq<u8>, leaf: Seq<u8>)
    ensures
        (leaf.len() > 0 && leaf[0] == 47) ==> path_join(base, leaf) == leaf,
        !(leaf.len() > 0 && leaf[0] == 47) ==> path_parts(path_join(base, leaf)) == path_parts(base)
            + path_parts(leaf),
        !(leaf.len() > 0 && leaf[0] == 47) && base.len() > 0 ==> path_join(base, leaf)[0] == base[0],
{
    let joined = path_join(base, leaf);
    if !absolute(leaf) {
        if base.len() == 0 {
            assert(joined =~= leaf);
            assert(fields(base, SLASH) =~= seq![Seq::<u8>::empty()]);
            let none = fields(base, SLASH);
            assert(none.drop_last() =~= Seq::empty());
            assert(idle_part(none.last()));
            assert(telling_parts(none.drop_last()) =~= Seq::empty());
            assert(telling_parts(none) =~= Seq::empty());
            assert(path_parts(base) + path_parts(leaf) =~= path_parts(leaf));
        } else if base.last() == SLASH {
            let head = base.drop_last();
            assert(base =~= head.push(SLASH));
            lemma_fields_concat(head, SLASH, leaf);
            lemma_telling_concat(fields(head, SLASH), fields(leaf, SLASH));
            lemma_one_more_field(head, SLASH, Seq::<u8>::empty());
            assert(base =~= head.push(SLASH) + Seq::<u8>::empty());
            assert(fields(base, SLASH).drop_last() =~= fields(head, SLASH));
            assert(idle_part(fields(base, SLASH).last()));
        } else {
            lemma_fields_concat(base, SLASH, leaf);
            lemma_telling_concat(fields(base, SLASH), fields(leaf, SLASH));
        }
    }
}

/// Behind the last dot stands none.
proof fn lemma_last_before(s: Seq<u8>, b: u8, n: int, at: int)
    requires
        0 <= at < n <= s.len(),
        s[at] == b,
        forall|i: int| at < i < n ==> s[i] != b,
    ensures
        last_before(s, b, n) == Some(at),
    decreases n,
{
    if at < n - 1 {
        lemma_last_before(s, b, n - 1, at);
    }
}

/// Where there is no dot, there is no last one.
proof fn lemma_none_before(s: Seq<u8>, b: u8, n: int)
    requires
        0 <= n <= s.len(),
        forall|i: int| 0 <= i < n ==> s[i] != b,
    ensures
        last_before(s, b, n) is None,
    decreases n,
{
    if n > 0 {
        lemma_none_before(s, b, n - 1);
    }
}

/// The extension of a file is what stands behind the last dot of its name. A
/// name without a dot, or with none but in front, has none.
pub proof fn an_extension_stands_behind_the_last_dot(dir: Seq<u8>, stem: Seq<u8>, behind: Seq<u8>)
    requires
        !stem.contains(47),
        !behind.contains(47),
        !behind.contains(46),
    ensures
        stem.len() > 0 && stem.push(46) + behind != seq![46u8, 46] ==> extension(
            path_join(dir, stem.push(46) + behind),
        ) == Some(behind),
        behind.len() > 0 ==> extension(path_join(dir, seq![46u8] + behind)) is None,
        behind.len() > 0 ==> extension(path_join(dir, behind)) is None,
{
    let full = stem.push(46) + behind;
    assert forall|i: int| 0 <= i < full.len() implies full[i] != 47 by {
        if i < stem.len() {
            assert(stem.contains(stem[i]));
        } else if i > stem.len() {
            assert(behind.contains(behind[i - stem.len() - 1]));
        }
    }
    assert forall|i: int| stem.len() < i < full.len() implies full[i] != 46 by {
        assert(behind.contains(behind[i - stem.len() - 1]));
    }
    if stem.len() > 0 {
        lemma_last_part(dir, full);
        lemma_last_before(full, DOT, full.len() as int, stem.len() as int);
        assert(full.skip(stem.len() as int + 1) =~= behind);
    }
    if behind.len() > 0 {
        let hidden = seq![46u8] + behind;
        assert forall|i: int| 0 <= i < hidden.len() implies hidden[i] != 47 by {
            if i > 0 {
                assert(behind.contains(behind[i - 1]));
            }
        }
        assert forall|i: int| 0 < i < hidden.len() implies hidden[i] != 46 by {
            assert(behind.contains(behind[i - 1]));
        }
        lemma_last_part(dir, hidden);
        lemma_last_before(hidden, DOT, hidden.len() as int, 0);
        assert(behind.contains(behind[0]));
        assert forall|i: int| 0 <= i < behind.len() implies behind[i] != 46 && behind[i] != 47 by {
            assert(behind.contains(behind[i]));
        }
        lemma_last_part(dir, behind);
        lemma_none_before(behind, DOT, behind.len() as int);
    }
}

/// A name without a slash is one part of a path.
pub proof fn lemma_one_part(name: Seq<u8>)
    requires
        name.len() > 0,
        name != seq![46u8],
        forall|i: int| 0 <= i < name.len() ==> name[i] != 47,
    ensures
        path_parts(name) == seq![name],
{
    assert(!name.contains(SLASH));
    lemma_single_field(name, SLASH);
    let parts = fields(name, SLASH);
    assert(parts.drop_last() =~= Seq::empty());
    assert(telling_parts(parts.drop_last()) =~= Seq::empty());
    assert(parts.last() == name);
    assert(!idle_part(name));
    assert(path_parts(name) =~= seq![name]);
}

/// The last part of a path is the name that it ends in.
proof fn lemma_last_part(dir: Seq<u8>, name: Seq<u8>)
    requires
        name.len() > 0,
        name != seq![46u8],
        forall|i: int| 0 <= i < name.len() ==> name[i] != 47,
    ensures
        path_parts(path_join(dir, name)).len() > 0,
        path_parts(path_join(dir, name)).last() == name,
{
    a_joined_path_goes_on(dir, name);
    lemma_one_part(name);
}

/// Bytes are written as two digits each, and digests and hashes are written so.
pub proof fn digests_are_written_in_hexadecimal(
    data: &[u8],
    i: int,
    hex: String,
    digest: String,
    hash: String,
)
    requires
        call_ensures(hex_encode, (data,), hex),
        call_ensures(sha256_hex, (data,), digest),
        call_ensures(short_hash, (data,), hash),
        0 <= i < data@.len(),
    ensures
        hex@.len() == 2 * data@.len(),
        hex@[2 * i] == "0123456789abcdef"@[data@[i] as int / 16],
        hex@[2 * i + 1] == "0123456789abcdef"@[data@[i] as int % 16],
        digest@ == hex_text(sha256(data@)),
        hash@ == digest@.take(16),
        hash@.len() == 16,
{
    a_byte_is_written_as_two_digits(data@, i);
}

/// What was drawn is written in hexadecimal, two digits for each byte, and a
/// failure to draw stays the same failure.
pub proof fn what_was_drawn_is_written_in_hexadecimal(
    drawn: Result<Vec<u8>, String>,
    written: Result<String, String>,
    count: usize,
    random: Result<String, String>,
)
    requires
        call_ensures(hex_of_drawn, (drawn,), written),
        call_ensures(random_hex, (count,), random),
    ensures
        drawn is Ok <==> written is Ok,
        drawn matches Ok(bytes) ==> written->Ok_0@ == hex_text(bytes@),
        drawn matches Err(reason) ==> written->Err_0 == reason,
        random matches Ok(text) ==> text@.len() == 2 * count,
        count == 0 ==> random is Ok,
{
}

/// A number is written in decimal digits that read back as it, and a text is
/// blank where no character of it is other than white space.
pub proof fn numbers_and_blanks_are_told(n: u128, text: String, s: &str, is: bool)
    requires
        call_ensures(decimal, (n,), text),
        call_ensures(is_blank, (s,), is),
    ensures
        number_of(text@) == n,
        text@[0] == '0' ==> n == 0,
        is <==> forall|i: int| 0 <= i < s@.len() ==> is_white_space(#[trigger] s@[i]),
{
    decimal_text_reads_back(n as nat);
}

/// Addresses are written, compared and judged by their numbers and ports.
pub proof fn addresses_are_told_by_number_and_port(
    bits: u32,
    v4: IpAddress,
    wide: u128,
    given: String,
    v6: IpAddress,
    local: bool,
    a: SocketAddress,
    b: SocketAddress,
    same: bool,
    text: String,
)
    requires
        call_ensures(ipv4_address, (bits,), v4),
        call_ensures(ipv6_address, (wide, given), v6),
        call_ensures(IpAddress::is_loopback, (&a.ip,), local),
        call_ensures(is_same_address, (&a, &b), same),
        call_ensures(display_address, (&a,), text),
    ensures
        v4.bits == IpBits::V4(bits),
        v4.text@ == decimal_text((bits as int / 0x100_0000) as nat) + "."@ + decimal_text(
            (bits as int / 0x1_0000 % 0x100) as nat,
        ) + "."@ + decimal_text((bits as int / 0x100 % 0x100) as nat) + "."@ + decimal_text(
            (bits as int % 0x100) as nat,
        ),
        v6.bits == IpBits::V6(wide),
        wide == 1 ==> v6.text@ == "::1"@,
        wide != 1 ==> v6.text@ == given@,
        local <==> match a.ip.bits {
            IpBits::V4(n) => n as int / 0x100_0000 == 127,
            IpBits::V6(n) => n == 1,
        },
        same <==> a.ip.bits == b.ip.bits && a.port == b.port,
        a.ip.bits is V4 ==> text@ == a.ip.text@ + ":"@ + decimal_text(a.port as nat),
        a.ip.bits is V6 ==> text@ == "["@ + a.ip.text@ + "]"@ + ":"@ + decimal_text(a.port as nat),
{
    an_endpoint_is_written_with_its_port(a);
}

/// The proxy of an entry listens on the port of the entry and on an address of
/// the machine itself, and is reached by a URL that begins with that address
/// and ends with the token.
pub proof fn a_proxy_listens_on_the_machine_itself(
    entry: RuntimeEntry,
    parsed: Option<IpAddress>,
    r: RuntimeResult<SocketAddress>,
    token: &str,
    at: SocketAddress,
    url: String,
)
    requires
        call_ensures(proxy_bind_address, (&entry, parsed), r),
        call_ensures(local_app_server_url, (&at, token), url),
    ensures
        r is Ok <==> entry.proxy_host@ == "localhost"@ || (parsed matches Some(ip)
            && match ip.bits {
            IpBits::V4(bits) => bits as int / 0x100_0000 == 127,
            IpBits::V6(bits) => bits == 1,
        }),
        r matches Ok(address) ==> address.port == entry.proxy_port && (if entry.proxy_host@
            == "localhost"@ {
            address.ip.bits == IpBits::V4(0x7f00_0001) && address.ip.text@ == "127.0.0.1"@
        } else {
            address.ip.bits == parsed->Some_0.bits && address.ip.text@ == parsed->Some_0.text@
        }),
        r matches Err(error) ==> error@.kind == Some("manifest_invalid"@) && error@.code == 1
            && error@.message == (if parsed is None {
            "Codex app-server proxy host is invalid"@
        } else {
            "Codex app-server proxy must use a loopback address"@
        }),
        url@ == "ws://"@ + address_text(at) + "/?"@ + query_item("token"@, token@),
{
    a_host_stands_for_its_address(entry.proxy_host@, parsed);
    url_carries_the_token(at, token@);
}

/// What members of an object of two with one name make is what the later one
/// says.
proof fn lemma_last_member(members: Seq<(String, Json)>, name: Seq<char>, i: int)
    requires
        0 <= i < members.len(),
        members[i].0@ == name,
        forall|j: int| i < j < members.len() ==> (#[trigger] members[j]).0@ != name,
    ensures
        members_view(members).contains_key(name),
        members_view(members)[name] == members[i].1@,
    decreases members.len(),
{
    let rest = members.drop_last();
    if i < rest.len() {
        assert forall|j: int| i < j < rest.len() implies (#[trigger] rest[j]).0@ != name by {
            assert(members[j].0@ != name);
        }
        assert(rest[i] == members[i]);
        lemma_last_member(rest, name, i);
        assert(members[members.len() - 1].0@ != name);
    }
}

/// A member is found under its name, the last one where there are several, and
/// nothing is found in what is no object.
pub proof fn the_last_member_of_a_name_counts<'a>(
    value: &'a Json,
    name: &str,
    r: Option<&'a Json>,
    i: int,
)
    requires
        call_ensures(Json::get, (value, name), r),
    ensures
        !(value is Object) ==> r is None,
        value matches Json::Object(members) && 0 <= i < members@.len() && members@[i].0@ == name@
            && (forall|j: int| i < j < members@.len() ==> (#[trigger] members@[j]).0@ != name@)
            ==> r is Some && r->Some_0@ == value->Object_0@[i].1@,
{
    if value is Object {
        let members = value->Object_0@;
        if 0 <= i < members.len() && members[i].0@ == name@ && (forall|j: int|
            i < j < members.len() ==> (#[trigger] members[j]).0@ != name@) {
            lemma_last_member(members, name@, i);
        }
    }
}

} // verus!
