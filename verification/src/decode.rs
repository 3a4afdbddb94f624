//! Records read from JSON: an object by the names of its members, or an array
//! with one item for each member in the order of their declaration.
use crate::json::{items_view, lemma_items_view, Json, JsonNumber, JsonView};
use vstd::prelude::*;

verus! {

/// What texts hold.
pub open spec fn texts_view(texts: Seq<String>) -> Seq<Seq<char>> {
    texts.map_values(|text: String| text@)
}

/// What an optional text holds.
pub open spec fn text_view(text: Option<String>) -> Option<Seq<char>> {
    match text {
        Some(text) => Some(text@),
        None => None,
    }
}

/// Whether a value can be a record of `count` members.
pub open spec fn record(j: JsonView, count: nat) -> bool {
    match j {
        JsonView::Object(_) => true,
        JsonView::Array(items) => items.len() == count,
        _ => false,
    }
}

/// The member of a record.
pub open spec fn member_at(j: JsonView, name: Seq<char>, index: int) -> Option<JsonView> {
    match j {
        JsonView::Array(items) => if 0 <= index < items.len() {
            Some(items[index])
        } else {
            None
        },
        _ => j.member(name),
    }
}

/// A member that is a text.
pub open spec fn text_at(j: JsonView, name: Seq<char>, index: int) -> Option<Seq<char>> {
    match member_at(j, name, index) {
        Some(JsonView::Text(s)) => Some(s),
        _ => None,
    }
}

/// The whole number that a JSON number is, if it is one from 0 to `max`.
pub open spec fn whole_number(n: JsonNumber, max: int) -> Option<int> {
    match n {
        JsonNumber::PosInt(n) => if n <= max {
            Some(n as int)
        } else {
            None
        },
        JsonNumber::NegInt(n) => if 0 <= n <= max {
            Some(n as int)
        } else {
            None
        },
        JsonNumber::Float(_) => None,
    }
}

/// A member that is a whole number from 0 to `max`.
pub open spec fn number_at(j: JsonView, name: Seq<char>, index: int, max: int) -> Option<int> {
    match member_at(j, name, index) {
        Some(JsonView::Number(n)) => whole_number(n, max),
        _ => None,
    }
}

/// The texts in an array, if it holds nothing else.
pub open spec fn texts_in(items: Seq<JsonView>) -> Option<Seq<Seq<char>>> {
    if forall|i: int| 0 <= i < items.len() ==> (#[trigger] items[i]) is Text {
        Some(items.map_values(|item: JsonView| item->Text_0))
    } else {
        None
    }
}

/// A member that is an array of texts.
pub open spec fn texts_at(j: JsonView, name: Seq<char>, index: int) -> Option<Seq<Seq<char>>> {
    match member_at(j, name, index) {
        Some(JsonView::Array(items)) => texts_in(items),
        _ => None,
    }
}

/// A member that is an array of texts, or missing and then empty.
pub open spec fn texts_or_none_at(j: JsonView, name: Seq<char>, index: int) -> Option<
    Seq<Seq<char>>,
> {
    match member_at(j, name, index) {
        None => Some(Seq::empty()),
        Some(_) => texts_at(j, name, index),
    }
}

/// A member that is a text, or missing or null.
pub open spec fn optional_text_at(j: JsonView, name: Seq<char>, index: int) -> Option<
    Option<Seq<char>>,
> {
    match member_at(j, name, index) {
        None => Some(None),
        Some(JsonView::Null) => Some(None),
        Some(JsonView::Text(s)) => Some(Some(s)),
        Some(_) => None,
    }
}

/// Whether a value can be a record of `count` members.
pub fn is_record(j: &Json, count: usize) -> (r: bool)
    ensures
        r == record(j@, count as nat),
{
    match j {
        Json::Object(_) => true,
        Json::Array(items) => {
            proof {
                lemma_items_view(items@);
            }
            items.len() == count
        },
        _ => false,
    }
}

/// The member of a record.
pub fn member<'a>(j: &'a Json, name: &str, index: usize) -> (r: Option<&'a Json>)
    ensures
        match r {
            Some(v) => member_at(j@, name@, index as int) == Some(v@),
            None => member_at(j@, name@, index as int) is None,
        },
{
    match j {
        Json::Array(items) => {
            proof {
                lemma_items_view(items@);
            }
            if index < items.len() {
                assert(items_view(items@)[index as int] == items@[index as int]@);
                Some(&items[index])
            } else {
                None
            }
        },
        _ => j.get(name),
    }
}

/// A member that is a text.
pub fn text_member(j: &Json, name: &str, index: usize) -> (r: Option<String>)
    ensures
        text_view(r) == text_at(j@, name@, index as int),
{
    match member(j, name, index) {
        Some(Json::Text(s)) => Some(s.clone()),
        _ => None,
    }
}

/// A member that is a whole number of 32 bits.
pub fn u32_member(j: &Json, name: &str, index: usize) -> (r: Option<u32>)
    ensures
        match r {
            Some(n) => number_at(j@, name@, index as int, u32::MAX as int) == Some(n as int),
            None => number_at(j@, name@, index as int, u32::MAX as int) is None,
        },
{
    match member(j, name, index) {
        Some(Json::Number(JsonNumber::PosInt(n))) => if *n <= u32::MAX as u64 {
            Some(*n as u32)
        } else {
            None
        },
        Some(Json::Number(JsonNumber::NegInt(n))) => if 0 <= *n && *n <= u32::MAX as i64 {
            Some(*n as u32)
        } else {
            None
        },
        _ => None,
    }
}

/// A member that is a whole number of 16 bits.
pub fn u16_member(j: &Json, name: &str, index: usize) -> (r: Option<u16>)
    ensures
        match r {
            Some(n) => number_at(j@, name@, index as int, u16::MAX as int) == Some(n as int),
            None => number_at(j@, name@, index as int, u16::MAX as int) is None,
        },
{
    match member(j, name, index) {
        Some(Json::Number(JsonNumber::PosInt(n))) => if *n <= u16::MAX as u64 {
            Some(*n as u16)
        } else {
            None
        },
        Some(Json::Number(JsonNumber::NegInt(n))) => if 0 <= *n && *n <= u16::MAX as i64 {
            Some(*n as u16)
        } else {
            None
        },
        _ => None,
    }
}

/// The texts in an array, if it holds nothing else.
fn all_texts(items: &Vec<Json>) -> (r: Option<Vec<String>>)
    ensures
        match r {
            Some(texts) => texts_in(items_view(items@)) == Some(texts_view(texts@)),
            None => texts_in(items_view(items@)) is None,
        },
{
    proof {
        lemma_items_view(items@);
    }
    let ghost views = items_view(items@);
    let mut out: Vec<String> = Vec::new();
    for i in 0..items.len()
        invariant
            views == items_view(items@),
            views.len() == items@.len(),
            forall|j: int| 0 <= j < items@.len() ==> #[trigger] views[j] == items@[j]@,
            out@.len() == i,
            forall|j: int|
                0 <= j < i ==> (#[trigger] views[j]) is Text && views[j]->Text_0 == out@[j]@,
    {
        assert(views[i as int] == items@[i as int]@);
        match &items[i] {
            Json::Text(s) => out.push(s.clone()),
            _ => {
                assert(!(views[i as int] is Text));
                return None;
            },
        }
    }
    assert(texts_view(out@) =~= views.map_values(|item: JsonView| item->Text_0));
    Some(out)
}

/// A member that is an array of texts.
pub fn texts_member(j: &Json, name: &str, index: usize) -> (r: Option<Vec<String>>)
    ensures
        match r {
            Some(texts) => texts_at(j@, name@, index as int) == Some(texts_view(texts@)),
            None => texts_at(j@, name@, index as int) is None,
        },
{
    match member(j, name, index) {
        Some(Json::Array(items)) => all_texts(items),
        _ => None,
    }
}

/// A member that is an array of texts, or missing and then empty.
pub fn texts_or_none_member(j: &Json, name: &str, index: usize) -> (r: Option<Vec<String>>)
    ensures
        match r {
            Some(texts) => texts_or_none_at(j@, name@, index as int) == Some(texts_view(texts@)),
            None => texts_or_none_at(j@, name@, index as int) is None,
        },
{
    match member(j, name, index) {
        None => {
            let none: Vec<String> = Vec::new();
            assert(texts_view(none@) =~= Seq::empty());
            Some(none)
        },
        Some(_) => texts_member(j, name, index),
    }
}

/// A member that is a text, or missing or null.
pub fn optional_text_member(j: &Json, name: &str, index: usize) -> (r: Option<Option<String>>)
    ensures
        match r {
            Some(text) => optional_text_at(j@, name@, index as int) == Some(text_view(text)),
            None => optional_text_at(j@, name@, index as int) is None,
        },
{
    match member(j, name, index) {
        None => Some(None),
        Some(Json::Null) => Some(None),
        Some(Json::Text(s)) => Some(Some(s.clone())),
        Some(_) => None,
    }
}

} // verus!
