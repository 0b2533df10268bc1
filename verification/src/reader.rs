//! Reading TOML text: the `toml` crate parses, and what it hands back is copied
//! into an [`Item`] level by level.
//!
//! What the parser makes of a text is not described here: it has a name,
//! [`toml_document`], and the contracts below speak of that name. The rules of
//! the schema are stated and proved on the [`Item`] that comes out.

use crate::document::{entries_view, items_view};
use crate::document::{Item, ItemView};
use crate::error::ParseFault;
use vstd::prelude::*;

verus! {

/// The parser's value type, opaque here: only [`peel`] looks inside.
#[verifier::external_type_specification]
#[verifier::external_body]
pub struct ExValue(toml::Value);

/// The parser's error type, opaque here.
#[verifier::external_type_specification]
#[verifier::external_body]
pub struct ExError(toml::de::Error);

/// What `toml::from_str` makes of a text: the value of the whole document, or
/// `None` where it reports an error.
pub uninterp spec fn toml_document(text: Seq<char>) -> Option<ItemView>;

/// What a `toml::Value` holds, as far as an [`Item`] keeps it: of a float and
/// a date only that it is one; the entries of a table in the order in which
/// the table is walked.
pub uninterp spec fn value_content(value: toml::Value) -> ItemView;

/// The outermost level of a `toml::Value`: leaves by value, the members of an
/// array or a table still as the parser's values.
enum Layer<'a> {
    Text(&'a str),
    Integer(i64),
    Flag(bool),
    Float,
    Datetime,
    List(&'a Vec<toml::Value>),
    Table(Vec<(&'a String, &'a toml::Value)>),
}

/// What a level holds, its members taken by [`value_content`].
spec fn layer_content(layer: Layer<'_>) -> ItemView {
    match layer {
        Layer::Text(s) => ItemView::Text(s@),
        Layer::Integer(i) => ItemView::Integer(i as int),
        Layer::Flag(b) => ItemView::Flag(b),
        Layer::Float => ItemView::Float,
        Layer::Datetime => ItemView::Datetime,
        Layer::List(values) => ItemView::List(
            Seq::new(values@.len(), |i: int| value_content(values@[i])),
        ),
        Layer::Table(entries) => ItemView::Table(
            Seq::new(entries@.len(), |i: int| (entries@[i].0@, value_content(*entries@[i].1))),
        ),
    }
}

/// Calls `toml::from_str` for a `toml::Value`. The contract names the outcome:
/// the call succeeds exactly where [`toml_document`] is `Some`, and the value
/// then holds what it names.
#[verifier::external_body]
fn parse_value(text: &str) -> (r: Result<toml::Value, toml::de::Error>)
    ensures
        r is Ok <==> toml_document(text@) is Some,
        r matches Ok(value) ==> toml_document(text@) == Some(value_content(value)),
{
    toml::from_str::<toml::Value>(text)
}

/// Tells the variants of a `toml::Value` apart, one arm each, and hands out
/// what the variant holds; a table's entries come from `toml::map::Map::iter`,
/// in its order. The contract says that this is what [`value_content`] names:
/// the level's own value, and for each member what the member holds.
#[verifier::external_body]
fn peel(value: &toml::Value) -> (r: Layer<'_>)
    ensures
        layer_content(r) == value_content(*value),
{
    match value {
        toml::Value::String(s) => Layer::Text(s.as_str()),
        toml::Value::Integer(i) => Layer::Integer(*i),
        toml::Value::Float(_) => Layer::Float,
        toml::Value::Boolean(b) => Layer::Flag(*b),
        toml::Value::Datetime(_) => Layer::Datetime,
        toml::Value::Array(a) => Layer::List(a),
        toml::Value::Table(t) => Layer::Table(t.iter().collect()),
    }
}

/// Calls `to_string` on a `toml::de::Error`: the parser's own words for what
/// went wrong and where. Nothing is claimed of the text.
#[verifier::external_body]
fn error_text(error: &toml::de::Error) -> (r: String) {
    error.to_string()
}

/// Copies a parsed value into an [`Item`].
fn item_of(value: &toml::Value) -> (r: Item)
    ensures
        r@ == value_content(*value),
    decreases value_content(*value),
{
    match peel(value) {
        Layer::Text(s) => Item::Text(s.to_owned()),
        Layer::Integer(i) => Item::Integer(i),
        Layer::Flag(b) => Item::Flag(b),
        Layer::Float => Item::Float,
        Layer::Datetime => Item::Datetime,
        Layer::List(values) => {
            let ghost content = value_content(*value);
            let ghost members = content->List_0;
            let mut items: Vec<Item> = Vec::new();
            let mut i: usize = 0;
            while i < values.len()
                invariant
                    i <= values.len(),
                    items.len() == i,
                    content == value_content(*value),
                    content == ItemView::List(members),
                    members.len() == values@.len(),
                    forall|j: int| 0 <= j < values@.len() ==> members[j] == value_content(#[trigger] values@[j]),
                    forall|j: int| 0 <= j < i ==> (#[trigger] items@[j])@ == members[j],
                decreases values.len() - i,
            {
                proof {
                    assert(decreases_to!(content => content->List_0));
                    assert(decreases_to!(members => members[i as int]));
                }
                let item = item_of(&values[i]);
                items.push(item);
                i += 1;
            }
            assert(items_view(items@) =~= members);
            Item::list(items)
        },
        Layer::Table(entries) => {
            let ghost content = value_content(*value);
            let ghost members = content->Table_0;
            let mut items: Vec<(String, Item)> = Vec::new();
            let mut i: usize = 0;
            while i < entries.len()
                invariant
                    i <= entries.len(),
                    items.len() == i,
                    content == value_content(*value),
                    content == ItemView::Table(members),
                    members.len() == entries@.len(),
                    forall|j: int| 0 <= j < entries@.len() ==> members[j] == ((#[trigger] entries@[j]).0@, value_content(*entries@[j].1)),
                    forall|j: int| 0 <= j < i ==> ((#[trigger] items@[j]).0@, items@[j].1@) == members[j],
                decreases entries.len() - i,
            {
                proof {
                    assert(decreases_to!(content => content->Table_0));
                    assert(decreases_to!(members => members[i as int]));
                    assert(decreases_to!(members[i as int] => members[i as int].1));
                }
                let key = entries[i].0.clone();
                let item = item_of(entries[i].1);
                items.push((key, item));
                i += 1;
            }
            assert(entries_view(items@) =~= members);
            Item::table(items)
        },
    }
}

/// Parses a TOML text into a document: `Ok` with what the parser found where
/// it accepts the text, and else its message as a syntax fault.
pub fn parse_document(text: &str) -> (r: Result<Item, ParseFault>)
    ensures
        match toml_document(text@) {
            Some(content) => r matches Ok(item) && item@ == content,
            None => r matches Err(ParseFault::Syntax(_)),
        },
{
    match parse_value(text) {
        Ok(value) => Ok(item_of(&value)),
        Err(e) => Err(ParseFault::Syntax(error_text(&e))),
    }
}

} // verus!
