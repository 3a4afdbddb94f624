//! Who is let in by the proxy: every query that is admitted, and none else.
use crate::admission::{
    admitted_client, admitted_item, admitted_items, allowed_from, client_id_char,
    constant_time_eq, default_is_a_client_id, forbidden_response, item_key, item_value,
    normalized_client_id, on_request, parse_proxy_query, query_item, query_token,
    token_alone_admits_the_default_client, token_and_client_id_admit_that_client,
    valid_client_id, validate_proxy_request, value_of, HandshakeRefusal, ProxyRequest,
};
use crate::endpoint::SocketAddress;
use crate::error::{ErrorView, RuntimeResult};
use crate::fields::{
    fields, fields_hold_no_separator, fields_joined_give_back_the_sequence, first_at, joined,
    lemma_fields_nonempty, lemma_first_at, lemma_first_from, lemma_one_more_field,
    lemma_single_field,
};
use crate::json::{Json, JsonView};
use crate::proxying::launched;
use crate::steps::{ListenJob, Step};
use vstd::prelude::*;
use vstd::utf8::is_ascii_chars;

verus! {

/// A client id is made of 1 to 128 letters, digits, hyphens, underscores, dots
/// and colons.
pub proof fn a_client_id_is_made_of_plain_characters(s: Seq<char>)
    ensures
        valid_client_id(s) <==> 1 <= s.len() <= 128 && forall|i: int|
            0 <= i < s.len() ==> "0123456789ABCDEFGHIJKLMNOPQRSTUVWXYZabcdefghijklmnopqrstuvwxyz-_.:"@.contains(
                #[trigger] s[i],
            ),
{
    assert forall|i: int| 0 <= i < s.len() implies client_id_char(s[i])
        == "0123456789ABCDEFGHIJKLMNOPQRSTUVWXYZabcdefghijklmnopqrstuvwxyz-_.:"@.contains(
        #[trigger] s[i],
    ) by {
        lemma_alphabet(s[i]);
    }
}

/// The characters that client ids are made of.
proof fn lemma_alphabet(c: char)
    ensures
        client_id_char(c)
            == "0123456789ABCDEFGHIJKLMNOPQRSTUVWXYZabcdefghijklmnopqrstuvwxyz-_.:"@.contains(c),
{
    reveal_strlit("0123456789ABCDEFGHIJKLMNOPQRSTUVWXYZabcdefghijklmnopqrstuvwxyz-_.:");
    let all = "0123456789ABCDEFGHIJKLMNOPQRSTUVWXYZabcdefghijklmnopqrstuvwxyz-_.:"@;
    assert(all.len() == 66);
    if client_id_char(c) {
        let i: int = if '0' <= c <= '9' {
            c as int - '0' as int
        } else if 'A' <= c <= 'Z' {
            10 + (c as int - 'A' as int)
        } else if 'a' <= c <= 'z' {
            36 + (c as int - 'a' as int)
        } else if c == '-' {
            62
        } else if c == '_' {
            63
        } else if c == '.' {
            64
        } else {
            65
        };
        assert(all[i] == c);
    }
    if all.contains(c) {
        let i = choose|i: int| 0 <= i < all.len() && all[i] == c;
        assert(all[i] == c);
    }
}

/// An admitted item is its key and its value.
proof fn lemma_item(item: Seq<char>)
    requires
        admitted_item(item),
    ensures
        item == query_item(item_key(item), item_value(item)),
{
    lemma_first_from(item, '=', 0);
    let at = first_at(item, '=');
    assert(at < item.len()) by {
        let k = choose|k: int| 0 <= k < item.len() && item[k] == '=';
        if at >= item.len() {
            assert(item[k] != '=');
        }
    }
    assert(item =~= query_item(item_key(item), item_value(item)));
}

/// The names of the two items are different, and neither is empty.
proof fn lemma_keys()
    ensures
        "token"@ != "clientId"@,
        forall|v: Seq<char>| #[trigger] query_item("token"@, v) == "token="@ + v,
        forall|v: Seq<char>| #[trigger] query_item("clientId"@, v) == "clientId="@ + v,
        forall|h: Seq<char>, v: Seq<char>|
            #![trigger h.push('&') + query_item("clientId"@, v)]
            h.push('&') + query_item("clientId"@, v) == h + "&clientId="@ + v,
        forall|h: Seq<char>, v: Seq<char>|
            #![trigger h.push('&') + query_item("token"@, v)]
            h.push('&') + query_item("token"@, v) == h + "&token="@ + v,
{
    reveal_strlit("token");
    reveal_strlit("clientId");
    reveal_strlit("token=");
    reveal_strlit("clientId=");
    reveal_strlit("&token=");
    reveal_strlit("&clientId=");
    assert("token"@.len() != "clientId"@.len());
    assert forall|v: Seq<char>| #[trigger] query_item("token"@, v) == "token="@ + v by {
        assert(query_item("token"@, v) =~= "token="@ + v);
    }
    assert forall|v: Seq<char>| #[trigger] query_item("clientId"@, v) == "clientId="@ + v by {
        assert(query_item("clientId"@, v) =~= "clientId="@ + v);
    }
    assert forall|h: Seq<char>, v: Seq<char>|
        #![trigger h.push('&') + query_item("clientId"@, v)]
        h.push('&') + query_item("clientId"@, v) == h + "&clientId="@ + v by {
        assert(h.push('&') + query_item("clientId"@, v) =~= h + "&clientId="@ + v);
    }
    assert forall|h: Seq<char>, v: Seq<char>|
        #![trigger h.push('&') + query_item("token"@, v)]
        h.push('&') + query_item("token"@, v) == h + "&token="@ + v by {
        assert(h.push('&') + query_item("token"@, v) =~= h + "&token="@ + v);
    }
}

/// An item with a plain value is admitted, and is one item.
proof fn lemma_plain_item(key: Seq<char>, value: Seq<char>)
    requires
        key == "token"@ || key == "clientId"@,
        query_token(value),
    ensures
        admitted_item(query_item(key, value)),
        item_key(query_item(key, value)) == key,
        item_value(query_item(key, value)) == value,
        !query_item(key, value).contains('&'),
{
    reveal_strlit("token");
    reveal_strlit("clientId");
    let item = query_item(key, value);
    let at = key.len() as int;
    assert(item[at] == '=');
    assert forall|j: int| 0 <= j < at implies item[j] != '=' by {
        assert(item[j] == key[j]);
    }
    lemma_first_at(item, '=', at);
    assert(item_key(item) =~= key);
    assert(item_value(item) =~= value);
    assert forall|j: int| 0 <= j < item.len() implies item[j] != '&' by {
        if j < at {
            assert(item[j] == key[j]);
        } else if j > at {
            assert(value.contains(value[j - at - 1]));
        }
    }
}

/// A client id can stand in a query.
proof fn lemma_client_id_is_plain(client: Seq<char>)
    requires
        valid_client_id(client),
    ensures
        query_token(client),
{
    assert forall|i: int| 0 <= i < client.len() implies '\0' <= #[trigger] client[i] <= '\u{7f}'
        && client[i] != '&' && client[i] != '%' by {
        assert(client_id_char(client[i]));
    }
}

/// A query is admitted, for a client, by a proxy that expects a token, where it
/// is one of three: the token alone, for the client `default`; or the token and
/// the client's id, in either order. Neither holds anything but plain
/// characters.
pub proof fn three_queries_are_admitted(query: Seq<char>, token: Seq<char>, client: Seq<char>)
    ensures
        admitted_client(query, token) == Some(client) <==> {
            &&& is_ascii_chars(token)
            &&& !token.contains('&')
            &&& !token.contains('%')
            &&& valid_client_id(client)
            &&& {
                ||| query == "token="@ + token && client == "default"@
                ||| query == "token="@ + token + "&clientId="@ + client
                ||| query == "clientId="@ + client + "&token="@ + token
            }
        },
{
    lemma_keys();
    default_is_a_client_id();
    if query_token(token) && valid_client_id(client) {
        token_alone_admits_the_default_client(token, token);
        token_and_client_id_admit_that_client(token, client, token);
        lemma_client_then_token(token, client);
    }
    if admitted_client(query, token) == Some(client) {
        lemma_admitted_shape(query, token, client);
    }
}

/// The client's id may come before the token.
proof fn lemma_client_then_token(token: Seq<char>, client: Seq<char>)
    requires
        query_token(token),
        valid_client_id(client),
    ensures
        admitted_client(
            query_item("clientId"@, client).push('&') + query_item("token"@, token),
            token,
        ) == Some(client),
{
    lemma_keys();
    lemma_client_id_is_plain(client);
    let first = query_item("clientId"@, client);
    let second = query_item("token"@, token);
    lemma_plain_item("clientId"@, client);
    lemma_plain_item("token"@, token);
    lemma_single_field(first, '&');
    lemma_one_more_field(first, '&', second);
    let items = fields(first.push('&') + second, '&');
    assert(items =~= seq![first, second]);
    let rest = items.drop_last();
    assert(rest =~= seq![first]);
    assert(value_of(rest, "clientId"@) == Some(client));
    assert(value_of(items, "clientId"@) == Some(client));
    assert(value_of(items, "token"@) == Some(token));
}

/// What is admitted has one of the three shapes.
proof fn lemma_admitted_shape(query: Seq<char>, token: Seq<char>, client: Seq<char>)
    requires
        admitted_client(query, token) == Some(client),
    ensures
        query_token(token),
        valid_client_id(client),
        (query == query_item("token"@, token) && client == "default"@) || (query == query_item(
            "token"@,
            token,
        ).push('&') + query_item("clientId"@, client)) || (query == query_item(
            "clientId"@,
            client,
        ).push('&') + query_item("token"@, token)),
{
    lemma_keys();
    let items = fields(query, '&');
    lemma_fields_nonempty(query, '&');
    fields_joined_give_back_the_sequence(query, '&');
    assert(joined(items, '&') == query);
    assert(admitted_items(items));
    assert(items.len() <= 2) by {
        if items.len() > 2 {
            assert(admitted_item(items[0]) && admitted_item(items[1]) && admitted_item(items[2]));
            assert(item_key(items[0]) != item_key(items[1]));
            assert(item_key(items[0]) != item_key(items[2]));
            assert(item_key(items[1]) != item_key(items[2]));
        }
    }
    let first = items[0];
    assert(admitted_item(first));
    lemma_item(first);
    fields_hold_no_separator(query, '&', 0);
    let rest = items.drop_last();
    if items.len() == 1 {
        assert(rest.len() == 0);
        assert(items.last() == first);
        assert(value_of(rest, "token"@) is None);
        assert(value_of(rest, "clientId"@) is None);
        assert(item_key(first) == "token"@);
        lemma_no_separator(first, "token"@, token);
    } else {
        let second = items[1];
        assert(admitted_item(second));
        lemma_item(second);
        fields_hold_no_separator(query, '&', 1);
        assert(item_key(first) != item_key(second));
        assert(rest =~= seq![first]);
        assert(rest.drop_last().len() == 0);
        assert(items.last() == second);
        assert(rest.last() == first);
        assert(value_of(rest.drop_last(), "token"@) is None);
        assert(value_of(rest.drop_last(), "clientId"@) is None);
        assert(joined(rest, '&') == first);
        assert(query == first.push('&') + second);
        if item_key(first) == "token"@ {
            assert(value_of(items, "token"@) == Some(item_value(first)));
            assert(value_of(items, "clientId"@) == Some(item_value(second)));
            lemma_no_separator(first, "token"@, token);
        } else {
            assert(value_of(items, "token"@) == Some(item_value(second)));
            assert(value_of(items, "clientId"@) == Some(item_value(first)));
            lemma_no_separator(second, "token"@, token);
        }
    }
}

/// The value of an item without a separator holds none.
proof fn lemma_no_separator(item: Seq<char>, key: Seq<char>, value: Seq<char>)
    requires
        item == query_item(key, value),
        !item.contains('&'),
    ensures
        !value.contains('&'),
{
    assert forall|i: int| 0 <= i < value.len() implies value[i] != '&' by {
        assert(item[key.len() + 1 + i] == value[i]);
        assert(item.contains(item[key.len() + 1 + i]));
    }
}

/// A proxy that is started for an extension lets requests of that extension
/// pass, with or without a slash at the end of their origin, and those of no
/// other origin.
pub proof fn a_proxy_serves_its_own_extension(
    step: Step,
    extension_id: String,
    job: ListenJob,
    address: SocketAddress,
    token: Seq<char>,
    origin: Option<String>,
)
    requires
        launched(step, Some(extension_id), job, address, Ok(token)),
    ensures
        step matches Step::StartProxy(launch) && launch.token@ == token && (allowed_from(
            origin,
            launch.allowed_origin@,
        ) <==> origin is Some && (origin->Some_0@ == "chrome-extension://"@ + extension_id@
            || origin->Some_0@ == "chrome-extension://"@ + extension_id@ + "/"@)),
{
}

/// A request that names no client id is one of the client `default`, and one
/// that names a client id is one of that client; any other is a misuse.
pub proof fn a_request_names_its_client(value: Option<&Json>, r: RuntimeResult<String>)
    requires
        call_ensures(normalized_client_id, (value,), r),
    ensures
        value is None || value->Some_0@ is Null ==> r is Ok && r->Ok_0@ == "default"@,
        value is Some && value->Some_0@ is Text ==> {
            &&& valid_client_id(value->Some_0@->Text_0) ==> r is Ok && JsonView::Text(r->Ok_0@)
                == value->Some_0@
            &&& !valid_client_id(value->Some_0@->Text_0) ==> r is Err
        },
        r is Ok ==> value is None || value->Some_0@ is Null || value->Some_0@ is Text,
        r matches Err(error) ==> error@ == (ErrorView {
            code: -32602,
            message: "Invalid clientId"@,
            kind: None,
        }),
{
}

/// A handshake is accepted where its origin is the allowed one, with or without
/// a slash at its end, its path is the root, and its query is admitted for the
/// client that it is accepted for. It is answered with 404 where only the path
/// keeps it from being looked at, and with 403 otherwise.
pub proof fn a_handshake_is_accepted_for_its_client(
    request: ProxyRequest,
    allowed: &str,
    token: &str,
    r: Result<String, HandshakeRefusal>,
    client: Seq<char>,
)
    requires
        call_ensures(on_request, (&request, allowed, token), r),
    ensures
        r matches Ok(client) ==> {
            &&& request.origin matches Some(origin) && (origin@ == allowed@ || origin@ == allowed@
                + "/"@)
            &&& request.path@ == "/"@
            &&& request.query matches Some(query) && (query@ == "token="@ + token@ && client@
                == "default"@ || query@ == "token="@ + token@ + "&clientId="@ + client@ || query@
                == "clientId="@ + client@ + "&token="@ + token@)
            &&& valid_client_id(client@)
        },
        r matches Err(refusal) ==> {
            &&& refusal.status == 404 || refusal.status == 403
            &&& refusal.status == 404 <==> request.path@ != "/"@ && (
            request.origin matches Some(origin) && (origin@ == allowed@ || origin@ == allowed@
                + "/"@))
            &&& refusal.status == 404 ==> refusal.body@ == "Not Found"@
            &&& refusal.status == 403 ==> refusal.body@ == "Forbidden"@
        },
        request.path@ == "/"@ && (request.origin matches Some(origin) && (origin@ == allowed@
            || origin@ == allowed@ + "/"@)) && (request.query matches Some(query) && (query@
            == "token="@ + token@ + "&clientId="@ + client || query@ == "clientId="@ + client
            + "&token="@ + token@)) && valid_client_id(client) && is_ascii_chars(token@)
            && !token@.contains('&') && !token@.contains('%') ==> r is Ok && r->Ok_0@ == client,
        request.path@ == "/"@ && (request.origin matches Some(origin) && (origin@ == allowed@
            || origin@ == allowed@ + "/"@)) && (request.query matches Some(query) && query@
            == "token="@ + token@) && is_ascii_chars(token@) && !token@.contains('&')
            && !token@.contains('%') ==> r is Ok && r->Ok_0@ == "default"@,
{
    if r is Ok {
        three_queries_are_admitted(request.query->Some_0@, token@, r->Ok_0@);
    }
    if request.query is Some {
        default_is_a_client_id();
        three_queries_are_admitted(request.query->Some_0@, token@, client);
        three_queries_are_admitted(request.query->Some_0@, token@, "default"@);
    }
}

/// A query is admitted for the client that it names, and otherwise forbidden;
/// and a request is judged by its origin first, then by its path, then by its
/// query.
pub proof fn a_request_is_judged_in_order(
    request: ProxyRequest,
    allowed: &str,
    token: &str,
    r: Result<String, &'static str>,
    query: Option<&str>,
    parsed: Result<String, &'static str>,
)
    requires
        call_ensures(validate_proxy_request, (&request, allowed, token), r),
        call_ensures(parse_proxy_query, (query, token), parsed),
    ensures
        !(request.origin matches Some(origin) && (origin@ == allowed@ || origin@ == allowed@
            + "/"@)) ==> r is Err && r->Err_0@ == "Forbidden"@,
        (request.origin matches Some(origin) && (origin@ == allowed@ || origin@ == allowed@
            + "/"@)) && request.path@ != "/"@ ==> r is Err && r->Err_0@ == "Not Found"@,
        (request.origin matches Some(origin) && (origin@ == allowed@ || origin@ == allowed@
            + "/"@)) && request.path@ == "/"@ && request.query is None ==> r is Err && r->Err_0@
            == "Forbidden"@,
        parsed matches Err(reason) ==> reason@ == "Forbidden"@,
        parsed matches Ok(client) ==> (query matches Some(asked) && (asked@ == "token="@ + token@
            && client@ == "default"@ || asked@ == "token="@ + token@ + "&clientId="@ + client@
            || asked@ == "clientId="@ + client@ + "&token="@ + token@)),
{
    reveal_strlit("Forbidden");
    reveal_strlit("Not Found");
    if parsed is Ok {
        three_queries_are_admitted(query->Some_0@, token@, parsed->Ok_0@);
    }
}

/// A refused handshake is answered with what was not found, or forbidden, and
/// the reason.
pub proof fn a_refusal_has_its_status(message: &'static str, r: HandshakeRefusal)
    requires
        call_ensures(forbidden_response, (message,), r),
    ensures
        r.status == 404 <==> message@ == "Not Found"@,
        r.status == 403 <==> message@ != "Not Found"@,
        r.body@ == message@,
{
}

/// Bytes are compared as a whole.
pub proof fn bytes_are_compared_as_a_whole(left: &[u8], right: &[u8], r: bool)
    requires
        call_ensures(constant_time_eq, (left, right), r),
    ensures
        r <==> left@.len() == right@.len() && forall|i: int|
            0 <= i < left@.len() ==> #[trigger] left@[i] == right@[i],
{
    if left@.len() == right@.len() && forall|i: int|
        0 <= i < left@.len() ==> #[trigger] left@[i] == right@[i] {
        assert(left@ =~= right@);
    }
}

} // verus!
