//! JSON text, read by `serde_json` and taken apart level by level.
use crate::json::{items_view, members_view, Json, JsonNumber, JsonView};
use vstd::prelude::*;

verus! {

/// `serde_json::Value`, carried as an opaque tree.
#[verifier::external_type_specification]
#[verifier::external_body]
pub struct ExValue(serde_json::Value);

/// `serde_json::Error`, carried as an opaque value.
#[verifier::external_type_specification]
#[verifier::external_body]
pub struct ExJsonError(serde_json::Error);

/// What a `serde_json::Value` holds.
pub uninterp spec fn value_view(value: serde_json::Value) -> JsonView;

/// What `serde_json::from_str` reads from a text; nothing if it refuses it.
pub uninterp spec fn text_value(text: Seq<char>) -> Option<JsonView>;

/// The uppermost level of a `serde_json::Value`.
pub enum ValueParts {
    Null,
    Bool(bool),
    Number(JsonNumber),
    Text(String),
    Array(Vec<serde_json::Value>),
    Object(Vec<(String, serde_json::Value)>),
}

/// What the items of an array hold, in order.
pub open spec fn values_view(values: Seq<serde_json::Value>) -> Seq<JsonView> {
    values.map_values(|v: serde_json::Value| value_view(v))
}

/// The map that the members of an object make, later members first.
pub open spec fn entries_view(entries: Seq<(String, serde_json::Value)>) -> Map<
    Seq<char>,
    JsonView,
>
    decreases entries.len(),
{
    if entries.len() == 0 {
        Map::empty()
    } else {
        entries_view(entries.drop_last()).insert(entries.last().0@, value_view(entries.last().1))
    }
}

/// Whether no two members share a name.
pub open spec fn distinct_names(entries: Seq<(String, serde_json::Value)>) -> bool {
    forall|i: int, j: int|
        0 <= i < j < entries.len() ==> #[trigger] entries[i].0@ != #[trigger] entries[j].0@
}

/// An object has finitely many members.
proof fn lemma_entries_finite(entries: Seq<(String, serde_json::Value)>)
    ensures
        entries_view(entries).dom().finite(),
    decreases entries.len(),
{
    if entries.len() > 0 {
        lemma_entries_finite(entries.drop_last());
    }
}

/// With distinct names, each member is found under its name.
proof fn lemma_entries_view(entries: Seq<(String, serde_json::Value)>, i: int)
    requires
        distinct_names(entries),
        0 <= i < entries.len(),
    ensures
        entries_view(entries).contains_key(entries[i].0@),
        entries_view(entries)[entries[i].0@] == value_view(entries[i].1),
    decreases entries.len(),
{
    if i < entries.len() - 1 {
        let rest = entries.drop_last();
        assert(rest[i] == entries[i]);
        lemma_entries_view(rest, i);
        assert(entries[i].0@ != entries[entries.len() - 1].0@);
    }
}

/// What one level of a value, with what lies below it, holds.
pub open spec fn parts_view(parts: ValueParts) -> JsonView {
    match parts {
        ValueParts::Null => JsonView::Null,
        ValueParts::Bool(b) => JsonView::Bool(b),
        ValueParts::Number(n) => JsonView::Number(n),
        ValueParts::Text(s) => JsonView::Text(s@),
        ValueParts::Array(values) => JsonView::Array(values_view(values@)),
        ValueParts::Object(entries) => JsonView::Object(entries_view(entries@)),
    }
}

/// `serde_json::from_str::<serde_json::Value>`: whether a text is accepted, and
/// the value it stands for, depend on the text alone.
#[verifier::external_body]
fn parse_value(text: &str) -> (r: Result<serde_json::Value, serde_json::Error>)
    ensures
        match r {
            Ok(value) => text_value(text@) == Some(value_view(value)),
            Err(_) => text_value(text@) is None,
        },
{
    serde_json::from_str::<serde_json::Value>(text)
}

/// The variants of `serde_json::Value`, told apart: each part holds what the
/// variant held, and an object's members are those of its `serde_json::Map`,
/// which has one member of a name.
#[verifier::external_body]
fn take_apart(value: serde_json::Value) -> (r: ValueParts)
    ensures
        value_view(value) == parts_view(r),
        r matches ValueParts::Object(entries) ==> distinct_names(entries@),
{
    match value {
        serde_json::Value::Null => ValueParts::Null,
        serde_json::Value::Bool(b) => ValueParts::Bool(b),
        serde_json::Value::Number(n) => ValueParts::Number(match (n.as_u64(), n.as_i64()) {
            (Some(n), _) => JsonNumber::PosInt(n),
            (None, Some(n)) => JsonNumber::NegInt(n),
            (None, None) => JsonNumber::Float(n.as_f64().unwrap_or_default().to_bits()),
        }),
        serde_json::Value::String(s) => ValueParts::Text(s),
        serde_json::Value::Array(values) => ValueParts::Array(values),
        serde_json::Value::Object(entries) => ValueParts::Object(entries.into_iter().collect()),
    }
}

/// The library's own form of a `serde_json::Value`.
pub fn from_value(value: serde_json::Value) -> (r: Json)
    ensures
        r@ == value_view(value),
    decreases value_view(value),
{
    let ghost whole = value_view(value);
    match take_apart(value) {
        ValueParts::Null => Json::Null,
        ValueParts::Bool(b) => Json::Bool(b),
        ValueParts::Number(n) => Json::Number(n),
        ValueParts::Text(s) => Json::Text(s),
        ValueParts::Array(values) => {
            let ghost all = values@;
            let mut out: Vec<Json> = Vec::new();
            for item in it: values
                invariant
                    it.seq() == all,
                    whole == JsonView::Array(values_view(all)),
                    whole == value_view(value),
                    items_view(out@) == values_view(all.take(it.index())),
            {
                let ghost before = out@;
                proof {
                    assert(item == all[it.index()]);
                    assert(values_view(all)[it.index()] == value_view(item));
                    assert(decreases_to!(whole => whole->Array_0));
                    assert(decreases_to!(whole->Array_0 => whole->Array_0[it.index()]));
                }
                out.push(from_value(item));
                assert(out@.drop_last() == before);
                assert(values_view(all.take(it.index() + 1)) =~= values_view(
                    all.take(it.index()),
                ).push(value_view(item)));
            }
            assert(all.take(all.len() as int) == all);
            Json::Array(out)
        },
        ValueParts::Object(entries) => {
            let ghost all = entries@;
            let mut out: Vec<(String, Json)> = Vec::new();
            for entry in it: entries
                invariant
                    it.seq() == all,
                    whole == JsonView::Object(entries_view(all)),
                    distinct_names(all),
                    whole == value_view(value),
                    members_view(out@) == entries_view(all.take(it.index())),
            {
                let ghost before = out@;
                proof {
                    assert(entry == all[it.index()]);
                    lemma_entries_view(all, it.index());
                    lemma_entries_finite(all);
                    assert(decreases_to!(whole => whole->Object_0));
                    assert(decreases_to!(whole->Object_0 => whole->Object_0[entry.0@]));
                }
                let (key, inner) = entry;
                out.push((key, from_value(inner)));
                assert(out@.drop_last() == before);
                assert(all.take(it.index() + 1).drop_last() == all.take(it.index()));
            }
            assert(all.take(all.len() as int) == all);
            Json::Object(out)
        },
    }
}

/// Reads a JSON text.
pub fn parse_json(text: &str) -> (r: Option<Json>)
    ensures
        match r {
            Some(j) => text_value(text@) == Some(j@),
            None => text_value(text@) is None,
        },
{
    match parse_value(text) {
        Ok(value) => Some(from_value(value)),
        Err(_) => None,
    }
}

} // verus!
