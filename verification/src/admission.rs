//! Who may talk to an app server through the proxy: client ids, the query of
//! the WebSocket request, its origin and its token.
use crate::encode::{is_hex_digit, random_text};
use crate::error::{fails_with, ErrorView, RuntimeError, RuntimeResult};
use crate::fields::{
    contents, fields, first_at, lemma_first_at, lemma_first_from, lemma_one_more_field,
    lemma_single_field, split_chars,
};
use crate::json::{Json, JsonView};
use crate::text::{cat, chars_of, same_text, text_of};
use vstd::prelude::*;
use vstd::slice::slice_subrange;
use vstd::utf8::{encode_utf8, encode_utf8_decode_utf8, is_ascii_chars};

verus! {

/// The longest client id, in bytes.
pub const MAX_CLIENT_ID_BYTES: usize = 128;

/// Whether a client id may hold a character.
pub open spec fn client_id_char(c: char) -> bool {
    ||| '0' <= c <= '9'
    ||| 'A' <= c <= 'Z'
    ||| 'a' <= c <= 'z'
    ||| c == '-'
    ||| c == '_'
    ||| c == '.'
    ||| c == ':'
}

/// Whether a text is a client id.
pub open spec fn valid_client_id(s: Seq<char>) -> bool {
    &&& 0 < s.len() <= MAX_CLIENT_ID_BYTES
    &&& forall|i: int| 0 <= i < s.len() ==> client_id_char(#[trigger] s[i])
}

/// The client id that a request names, if that is a client id; a request that
/// names none has the id `default`.
pub open spec fn client_id_of(value: Option<JsonView>) -> Option<Seq<char>> {
    match value {
        None => Some("default"@),
        Some(JsonView::Null) => Some("default"@),
        Some(JsonView::Text(s)) => if valid_client_id(s) {
            Some(s)
        } else {
            None
        },
        Some(_) => None,
    }
}

/// `default` is a client id.
pub proof fn default_is_a_client_id()
    ensures
        valid_client_id("default"@),
{
    reveal_strlit("default");
}

/// Whether characters make a client id.
fn check_client_id(chars: &[char]) -> (r: bool)
    ensures
        r == valid_client_id(chars@),
{
    if chars.len() == 0 || chars.len() > MAX_CLIENT_ID_BYTES {
        return false;
    }
    for i in 0..chars.len()
        invariant
            0 < chars@.len() <= MAX_CLIENT_ID_BYTES,
            forall|j: int| 0 <= j < i ==> client_id_char(#[trigger] chars@[j]),
    {
        let c = chars[i];
        if !(('0' <= c && c <= '9') || ('A' <= c && c <= 'Z') || ('a' <= c && c <= 'z') || c == '-'
            || c == '_' || c == '.' || c == ':') {
            assert(!client_id_char(chars@[i as int]));
            return false;
        }
    }
    true
}

/// The client id that a request names.
pub fn normalized_client_id(value: Option<&Json>) -> (r: RuntimeResult<String>)
    ensures
        match (match value {
            Some(v) => client_id_of(Some(v@)),
            None => client_id_of(None),
        }) {
            Some(id) => r is Ok && r->Ok_0@ == id && valid_client_id(id),
            None => fails_with(r, ErrorView::invalid_params("Invalid clientId"@)),
        },
{
    proof {
        default_is_a_client_id();
    }
    let client_id = match value {
        None => "default",
        Some(Json::Null) => "default",
        Some(Json::Text(value)) => value.as_str(),
        Some(_) => return Err(RuntimeError::invalid_params("Invalid clientId")),
    };
    if !check_client_id(chars_of(client_id).as_slice()) {
        return Err(RuntimeError::invalid_params("Invalid clientId"));
    }
    Ok(client_id.to_owned())
}

/// Compares all bytes, wherever the first difference is.
pub fn constant_time_eq(left: &[u8], right: &[u8]) -> (r: bool)
    ensures
        r == (left@ == right@),
{
    if left.len() != right.len() {
        return false;
    }
    let mut difference: u8 = 0;
    for i in 0..left.len()
        invariant
            left@.len() == right@.len(),
            difference == 0 <==> (forall|j: int| 0 <= j < i ==> left@[j] == right@[j]),
    {
        let ghost before = difference;
        let a = left[i];
        let b = right[i];
        difference = difference | (a ^ b);
        assert((before | (a ^ b)) == 0 <==> (before == 0 && a == b)) by (bit_vector);
    }
    assert(difference == 0 ==> left@ =~= right@);
    difference == 0
}

/// Two texts with one encoding are one text.
pub proof fn encoding_tells_texts_apart(a: Seq<char>, b: Seq<char>)
    ensures
        encode_utf8(a) == encode_utf8(b) <==> a == b,
{
    encode_utf8_decode_utf8(a);
    encode_utf8_decode_utf8(b);
}

/// What stands before the first `=` of an item of a query.
pub open spec fn item_key(item: Seq<char>) -> Seq<char> {
    item.take(first_at(item, '='))
}

/// What stands behind the first `=` of an item of a query.
pub open spec fn item_value(item: Seq<char>) -> Seq<char> {
    item.skip(first_at(item, '=') + 1)
}

/// Whether an item of a query is a token or a client id, in plain ASCII.
pub open spec fn admitted_item(item: Seq<char>) -> bool {
    &&& item.contains('=')
    &&& !item_value(item).contains('%')
    &&& is_ascii_chars(item_value(item))
    &&& (item_key(item) == "token"@ || item_key(item) == "clientId"@)
}

/// The value of the last item with that key, if there is one.
pub open spec fn value_of(items: Seq<Seq<char>>, key: Seq<char>) -> Option<Seq<char>>
    decreases items.len(),
{
    if items.len() == 0 {
        None
    } else if item_key(items.last()) == key {
        Some(item_value(items.last()))
    } else {
        value_of(items.drop_last(), key)
    }
}

/// Whether every item is admitted and no key comes twice.
pub open spec fn admitted_items(items: Seq<Seq<char>>) -> bool {
    &&& forall|i: int| 0 <= i < items.len() ==> admitted_item(#[trigger] items[i])
    &&& forall|i: int, j: int|
        0 <= i < j < items.len() ==> item_key(#[trigger] items[i]) != item_key(#[trigger] items[j])
}

/// The client that a query is admitted for: its items are admitted, its token
/// is the expected one and its client id, `default` if it has none, is one.
pub open spec fn admitted_client(query: Seq<char>, expected_token: Seq<char>) -> Option<Seq<char>> {
    let items = fields(query, '&');
    let client = match value_of(items, "clientId"@) {
        Some(id) => id,
        None => "default"@,
    };
    if admitted_items(items) && value_of(items, "token"@) == Some(expected_token)
        && valid_client_id(client) {
        Some(client)
    } else {
        None
    }
}

/// A key that is missing among admitted items is missing among each of them.
proof fn lemma_value_of(items: Seq<Seq<char>>, key: Seq<char>)
    ensures
        value_of(items, key) is None <==> forall|i: int|
            0 <= i < items.len() ==> item_key(#[trigger] items[i]) != key,
    decreases items.len(),
{
    if items.len() > 0 {
        let rest = items.drop_last();
        lemma_value_of(rest, key);
        assert(forall|i: int| 0 <= i < rest.len() ==> items[i] == rest[i]);
        if value_of(items, key) is None {
            assert forall|i: int| 0 <= i < items.len() implies item_key(#[trigger] items[i])
                != key by {
                if i < rest.len() {
                    assert(rest[i] == items[i]);
                }
            }
        } else if item_key(items.last()) != key {
            let i = choose|i: int| 0 <= i < rest.len() && item_key(#[trigger] rest[i]) == key;
            assert(item_key(items[i]) == key);
        } else {
            assert(item_key(items[items.len() - 1]) == key);
        }
    }
}

/// Where the first `=` stands.
fn find_equals(item: &[char]) -> (r: Option<usize>)
    ensures
        match r {
            Some(i) => item@.contains('=') && first_at(item@, '=') == i && i < item@.len(),
            None => !item@.contains('='),
        },
{
    for i in 0..item.len()
        invariant
            forall|j: int| 0 <= j < i ==> item@[j] != '=',
    {
        if item[i] == '=' {
            proof {
                lemma_first_at(item@, '=', i as int);
            }
            return Some(i);
        }
    }
    None
}

/// No character comes before NUL.
proof fn lemma_char_lowest(c: char)
    ensures
        '\0' <= c,
{
}

/// Whether characters are in plain ASCII and hold no `%`.
fn plain_value(value: &[char]) -> (r: bool)
    ensures
        r == (!value@.contains('%') && is_ascii_chars(value@)),
{
    for i in 0..value.len()
        invariant
            forall|j: int| 0 <= j < i ==> value@[j] != '%' && '\0' <= #[trigger] value@[j] <= '\u{7f}',
    {
        let c = value[i];
        assert('\0' <= c) by {
            lemma_char_lowest(c);
        }
        if c == '%' || c > '\u{7f}' {
            assert(value@[i as int] == '%' || value@[i as int] > '\u{7f}');
            return false;
        }
    }
    true
}

/// The client that a query is admitted for.
pub fn parse_proxy_query(query: Option<&str>, expected_token: &str) -> (r: Result<
    String,
    &'static str,
>)
    ensures
        match (match query {
            Some(query) => admitted_client(query@, expected_token@),
            None => None,
        }) {
            Some(client) => r is Ok && r->Ok_0@ == client,
            None => r is Err && r->Err_0@ == "Forbidden"@,
        },
{
    let text = match query {
        Some(text) => text,
        None => return Err("Forbidden"),
    };
    let items = split_chars(chars_of(text).as_slice(), '&');
    let ghost all = contents(items@);
    let mut token: Option<String> = None;
    let mut client_id: Option<String> = None;
    for i in 0..items.len()
        invariant
            all == contents(items@),
            all == fields(text@, '&'),
            query == Some(text),
            admitted_items(all.take(i as int)),
            match token {
                Some(t) => value_of(all.take(i as int), "token"@) == Some(t@),
                None => value_of(all.take(i as int), "token"@) is None,
            },
            match client_id {
                Some(t) => value_of(all.take(i as int), "clientId"@) == Some(t@),
                None => value_of(all.take(i as int), "clientId"@) is None,
            },
    {
        let item = &items[i];
        let length: usize = item.len();
        let ghost seen = all.take(i as int);
        let ghost next = all.take(i + 1);
        proof {
            assert(all[i as int] == item@);
            assert(all.len() == items@.len());
            assert(next.drop_last() == seen);
            assert(next.last() == item@);
            lemma_value_of(seen, "token"@);
            lemma_value_of(seen, "clientId"@);
            reveal_strlit("token");
            reveal_strlit("clientId");
            assert(admitted_items(all) ==> admitted_item(all[i as int]));
        }
        let at = match find_equals(item.as_slice()) {
            Some(at) => at,
            None => return Err("Forbidden"),
        };
        let key = slice_subrange(item.as_slice(), 0, at);
        let value = slice_subrange(item.as_slice(), at + 1, length);
        assert(key@ == item_key(item@));
        assert(value@ == item_value(item@));
        if !plain_value(value) {
            return Err("Forbidden");
        }
        let key_text = text_of(key);
        let ghost duplicate = exists|j: int|
            0 <= j < seen.len() && item_key(#[trigger] seen[j]) == key@;
        proof {
            if duplicate {
                let j = choose|j: int|
                    0 <= j < seen.len() && item_key(#[trigger] seen[j]) == key@;
                assert(seen[j] == all[j]);
                assert(item_key(all[j]) == item_key(all[i as int]));
                assert(!admitted_items(all));
            }
        }
        if same_text(key_text.as_str(), "token") {
            if token.is_some() {
                return Err("Forbidden");
            }
            token = Some(text_of(value));
        } else if same_text(key_text.as_str(), "clientId") {
            if client_id.is_some() {
                return Err("Forbidden");
            }
            client_id = Some(text_of(value));
        } else {
            return Err("Forbidden");
        }
        assert("token"@.len() != "clientId"@.len());
        assert(forall|j: int| 0 <= j < seen.len() ==> next[j] == seen[j]);
        assert forall|j: int, k: int| 0 <= j < k < next.len() implies item_key(
            #[trigger] next[j],
        ) != item_key(#[trigger] next[k]) by {
            if k < seen.len() {
                assert(item_key(seen[j]) != item_key(seen[k]));
            } else {
                assert(next[j] == seen[j]);
                assert(item_key(seen[j]) != key@);
            }
        }
        assert(admitted_items(next));
    }
    assert(all.take(all.len() as int) == all);
    let token = match token {
        Some(token) => token,
        None => return Err("Forbidden"),
    };
    proof {
        encoding_tells_texts_apart(token@, expected_token@);
    }
    if !constant_time_eq(token.as_str().as_bytes(), expected_token.as_bytes()) {
        return Err("Forbidden");
    }
    let client = match client_id {
        Some(id) => id,
        None => "default".to_owned(),
    };
    if check_client_id(chars_of(client.as_str()).as_slice()) {
        Ok(client)
    } else {
        Err("Forbidden")
    }
}

/// What the proxy reads of a WebSocket request.
#[derive(Debug)]
pub struct ProxyRequest {
    pub origin: Option<String>,
    pub path: String,
    pub query: Option<String>,
}

/// Whether a request comes from the allowed origin, written with or without a
/// slash at its end.
pub open spec fn allowed_from(origin: Option<String>, allowed_origin: Seq<char>) -> bool {
    origin is Some && (origin->Some_0@ == allowed_origin || origin->Some_0@ == allowed_origin
        + "/"@)
}

/// The client that a request is admitted for, or why it is not.
pub fn validate_proxy_request(
    request: &ProxyRequest,
    allowed_origin: &str,
    expected_token: &str,
) -> (r: Result<String, &'static str>)
    ensures
        match r {
            Ok(client) => allowed_from(request.origin, allowed_origin@) && request.path@ == "/"@
                && request.query is Some && admitted_client(
                request.query->Some_0@,
                expected_token@,
            ) == Some(client@),
            Err(message) => if allowed_from(request.origin, allowed_origin@) && request.path@
                != "/"@ {
                message@ == "Not Found"@
            } else {
                &&& message@ == "Forbidden"@
                &&& allowed_from(request.origin, allowed_origin@) ==> (request.query is None
                    || admitted_client(request.query->Some_0@, expected_token@) is None)
            },
        },
{
    let origin = match &request.origin {
        Some(origin) => origin,
        None => return Err("Forbidden"),
    };
    if !same_text(origin.as_str(), allowed_origin) && !same_text(
        origin.as_str(),
        cat(allowed_origin, "/").as_str(),
    ) {
        return Err("Forbidden");
    }
    if !same_text(request.path.as_str(), "/") {
        return Err("Not Found");
    }
    match &request.query {
        Some(query) => parse_proxy_query(Some(query.as_str()), expected_token),
        None => parse_proxy_query(None, expected_token),
    }
}

/// The HTTP answer to a WebSocket request that is not admitted.
#[derive(Debug)]
pub struct HandshakeRefusal {
    pub status: u16,
    pub body: String,
}

/// The HTTP answer that goes with a reason.
pub fn forbidden_response(message: &'static str) -> (r: HandshakeRefusal)
    ensures
        r.status == (if message@ == "Not Found"@ {
            404u16
        } else {
            403u16
        }),
        r.body@ == message@,
{
    let status: u16 = if same_text(message, "Not Found") {
        404
    } else {
        403
    };
    HandshakeRefusal { status, body: message.to_owned() }
}

/// Answers a WebSocket request: the client it is admitted for, or a refusal.
pub fn on_request(request: &ProxyRequest, allowed_origin: &str, token: &str) -> (r: Result<
    String,
    HandshakeRefusal,
>)
    ensures
        match r {
            Ok(client) => allowed_from(request.origin, allowed_origin@) && request.path@ == "/"@
                && request.query is Some && admitted_client(request.query->Some_0@, token@) == Some(
                client@,
            ),
            Err(refusal) => if allowed_from(request.origin, allowed_origin@) && request.path@
                != "/"@ {
                refusal.status == 404 && refusal.body@ == "Not Found"@
            } else {
                &&& refusal.status == 403
                &&& refusal.body@ == "Forbidden"@
                &&& allowed_from(request.origin, allowed_origin@) ==> (request.query is None
                    || admitted_client(request.query->Some_0@, token@) is None)
            },
        },
{
    match validate_proxy_request(request, allowed_origin, token) {
        Ok(client) => Ok(client),
        Err(message) => {
            proof {
                reveal_strlit("Forbidden");
                reveal_strlit("Not Found");
                assert("Forbidden"@[0] != "Not Found"@[0]);
            }
            Err(forbidden_response(message))
        },
    }
}

/// Whether a text can stand as a token in a query: plain ASCII, without `&`
/// and `%`.
pub open spec fn query_token(token: Seq<char>) -> bool {
    is_ascii_chars(token) && !token.contains('&') && !token.contains('%')
}

/// The item of a query with that key and value.
pub open spec fn query_item(key: Seq<char>, value: Seq<char>) -> Seq<char> {
    key.push('=') + value
}

/// An item is cut into its key and its value again.
proof fn lemma_query_item(key: Seq<char>, value: Seq<char>)
    requires
        !key.contains('='),
    ensures
        query_item(key, value).contains('='),
        item_key(query_item(key, value)) == key,
        item_value(query_item(key, value)) == value,
{
    let item = query_item(key, value);
    assert(item[key.len() as int] == '=');
    assert forall|j: int| 0 <= j < key.len() implies item[j] != '=' by {
        assert(item[j] == key[j]);
        assert(key.contains(key[j]));
    }
    lemma_first_at(item, '=', key.len() as int);
    assert(item_key(item) =~= key);
    assert(item_value(item) =~= value);
}

/// A client id can stand in a query.
proof fn lemma_client_id_plain(client: Seq<char>)
    requires
        valid_client_id(client),
    ensures
        query_token(client),
{
    assert forall|i: int| 0 <= i < client.len() implies '\0' <= #[trigger] client[i]
        <= '\u{7f}' by {
        lemma_char_lowest(client[i]);
        assert(client_id_char(client[i]));
    }
    assert forall|i: int| 0 <= i < client.len() implies client[i] != '&' && client[i]
        != '%' by {
        assert(client_id_char(client[i]));
    }
}

/// An item of the query that names the token or the client.
proof fn lemma_admitted_item(key: Seq<char>, value: Seq<char>)
    requires
        key == "token"@ || key == "clientId"@,
        query_token(value),
    ensures
        admitted_item(query_item(key, value)),
        item_key(query_item(key, value)) == key,
        item_value(query_item(key, value)) == value,
        !query_item(key, value).contains('&'),
{
    reveal_strlit("token");
    reveal_strlit("clientId");
    assert(!key.contains('=') && !key.contains('&'));
    lemma_query_item(key, value);
    let item = query_item(key, value);
    assert forall|j: int| 0 <= j < item.len() implies item[j] != '&' by {
        if j < key.len() {
            assert(item[j] == key[j]);
            assert(key.contains(key[j]));
        } else if j > key.len() {
            assert(item[j] == value[j - key.len() - 1]);
            assert(value.contains(value[j - key.len() - 1]));
        }
    }
}

/// The query that carries the token alone is admitted, for the client
/// `default`, by a proxy that expects the token, and by no other.
pub proof fn token_alone_admits_the_default_client(token: Seq<char>, expected: Seq<char>)
    requires
        query_token(token),
    ensures
        admitted_client(query_item("token"@, token), expected) == (if token == expected {
            Some("default"@)
        } else {
            None::<Seq<char>>
        }),
{
    let item = query_item("token"@, token);
    lemma_admitted_item("token"@, token);
    lemma_single_field(item, '&');
    let items = fields(item, '&');
    default_is_a_client_id();
    reveal_strlit("token");
    reveal_strlit("clientId");
    assert("token"@.len() != "clientId"@.len());
    assert(items.drop_last().len() == 0);
    assert(value_of(items, "token"@) == Some(token));
    assert(value_of(items.drop_last(), "clientId"@) is None);
    assert(value_of(items, "clientId"@) is None);
}

/// The query that carries the token and a client id is admitted, for that
/// client, by a proxy that expects the token, and by no other.
pub proof fn token_and_client_id_admit_that_client(
    token: Seq<char>,
    client: Seq<char>,
    expected: Seq<char>,
)
    requires
        query_token(token),
        valid_client_id(client),
    ensures
        admitted_client(
            query_item("token"@, token).push('&') + query_item("clientId"@, client),
            expected,
        ) == (if token == expected {
            Some(client)
        } else {
            None::<Seq<char>>
        }),
{
    let first = query_item("token"@, token);
    let second = query_item("clientId"@, client);
    lemma_client_id_plain(client);
    lemma_admitted_item("token"@, token);
    lemma_admitted_item("clientId"@, client);
    lemma_single_field(first, '&');
    lemma_one_more_field(first, '&', second);
    let items = fields(first.push('&') + second, '&');
    assert(items =~= seq![first, second]);
    reveal_strlit("token");
    reveal_strlit("clientId");
    assert("token"@.len() != "clientId"@.len());
    let rest = items.drop_last();
    assert(rest =~= seq![first]);
    assert(value_of(items, "clientId"@) == Some(client));
    assert(value_of(rest, "token"@) == Some(token));
    assert(value_of(items, "token"@) == Some(token));
}

/// Whoever is admitted carried the expected token, and is a client by its id.
pub proof fn admission_needs_the_token(query: Seq<char>, expected: Seq<char>)
    requires
        admitted_client(query, expected) is Some,
    ensures
        valid_client_id(admitted_client(query, expected)->Some_0),
        exists|i: int|
            0 <= i < fields(query, '&').len() && #[trigger] fields(query, '&')[i] == query_item(
                "token"@,
                expected,
            ),
{
    let items = fields(query, '&');
    lemma_value_of(items, "token"@);
    lemma_value_found(items, "token"@);
    let i = choose|i: int|
        0 <= i < items.len() && item_key(#[trigger] items[i]) == "token"@ && Some(
            item_value(items[i]),
        ) == value_of(items, "token"@);
    let item = items[i];
    assert(admitted_item(item));
    lemma_first_from(item, '=', 0);
    let at = first_at(item, '=');
    assert(at < item.len()) by {
        let k = choose|k: int| 0 <= k < item.len() && item[k] == '=';
        if at >= item.len() {
            assert(item[k] != '=');
        }
    }
    assert(item =~= query_item("token"@, expected));
}

/// A value that is found stands in an item.
proof fn lemma_value_found(items: Seq<Seq<char>>, key: Seq<char>)
    requires
        value_of(items, key) is Some,
    ensures
        exists|i: int|
            0 <= i < items.len() && item_key(#[trigger] items[i]) == key && Some(
                item_value(items[i]),
            ) == value_of(items, key),
    decreases items.len(),
{
    if item_key(items.last()) == key {
        assert(items[items.len() - 1] == items.last());
    } else {
        let rest = items.drop_last();
        lemma_value_found(rest, key);
        let i = choose|i: int|
            0 <= i < rest.len() && item_key(#[trigger] rest[i]) == key && Some(item_value(rest[i]))
                == value_of(rest, key);
        assert(items[i] == rest[i]);
    }
}

/// What a request is taken to name is a client id, and naming it changes
/// nothing.
pub proof fn a_client_id_names_itself(value: Option<JsonView>)
    requires
        client_id_of(value) is Some,
    ensures
        valid_client_id(client_id_of(value)->Some_0),
        client_id_of(Some(JsonView::Text(client_id_of(value)->Some_0))) == client_id_of(value),
{
    default_is_a_client_id();
}

/// Random hexadecimal text can stand as a token in a query.
pub proof fn random_text_is_a_query_token(token: Seq<char>, byte_count: nat)
    requires
        random_text(token, byte_count),
    ensures
        query_token(token),
{
    assert forall|i: int| 0 <= i < token.len() implies '\0' <= #[trigger] token[i] <= '\u{7f}'
        && token[i] != '&' && token[i] != '%' by {
        assert(is_hex_digit(token[i]));
    }
}

} // verus!
