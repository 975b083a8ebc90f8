//! JSON documents, as `serde_json` reads and writes them.
//!
//! The grammar, the escaping and the pretty-printed layout are `serde_json`'s
//! and are not verified here. This module gives its value type a mathematical
//! model, [`Doc`], and states over that model what each call into the crate is
//! taken to do. The library is built with `serde_json`'s `preserve_order`
//! feature, so an object keeps its members in the order in which they were
//! written or read.

use vstd::prelude::*;

verus! {

/// A JSON document as a mathematical value.
pub ghost enum Doc {
    Null,
    Bool(bool),
    /// A number, held as the digits `serde_json` prints for it.
    Number(Seq<char>),
    Text(Seq<char>),
    List(Seq<Doc>),
    /// An object: its members, each a key and a document, in order.
    Object(Seq<(Seq<char>, Doc)>),
}

/// The document of the first member of `entries` whose key is `key`.
pub open spec fn first_with_key(entries: Seq<(Seq<char>, Doc)>, key: Seq<char>) -> Option<Doc>
    decreases entries.len(),
{
    if entries.len() == 0 {
        None
    } else if entries[0].0 == key {
        Some(entries[0].1)
    } else {
        first_with_key(entries.drop_first(), key)
    }
}

/// The member of an object stored under `key`; `None` for a missing key and
/// for a document that is no object.
pub open spec fn doc_member(doc: Doc, key: Seq<char>) -> Option<Doc> {
    match doc {
        Doc::Object(entries) => first_with_key(entries, key),
        _ => None,
    }
}

/// The items of a list; `None` for any other document.
pub open spec fn doc_items(doc: Doc) -> Option<Seq<Doc>> {
    match doc {
        Doc::List(items) => Some(items),
        _ => None,
    }
}

/// The characters of a text; `None` for any other document.
pub open spec fn doc_text(doc: Doc) -> Option<Seq<char>> {
    match doc {
        Doc::Text(text) => Some(text),
        _ => None,
    }
}

/// No two members share a key.
pub open spec fn distinct_keys(entries: Seq<(String, serde_json::Value)>) -> bool {
    forall|i: int, j: int|
        0 <= i < j < entries.len() ==> (#[trigger] entries[i]).0@ != (#[trigger] entries[j]).0@
}

/// `serde_json::Value`, carried as an opaque value; [`document`] says what
/// it holds.
#[verifier::external_type_specification]
#[verifier::external_body]
pub struct ExValue(serde_json::Value);

/// `serde_json::Error`, carried as an opaque value.
#[verifier::external_type_specification]
#[verifier::external_body]
pub struct ExError(serde_json::Error);

/// The document that a `serde_json::Value` holds: its variant, the text of a
/// string, the items of an array in order, the members of an object in the
/// order in which the map yields them. That order is the order of insertion;
/// the map's hasher has no part in it.
pub uninterp spec fn document(value: serde_json::Value) -> Doc;

/// The document that `serde_json::from_str` reads from a text, or `None`
/// where it rejects the text.
pub uninterp spec fn parsed(text: Seq<char>) -> Option<Doc>;

/// The text that `serde_json::to_string_pretty` writes for a document, or
/// `None` where it gives an error instead.
pub uninterp spec fn rendered(doc: Doc) -> Option<Seq<char>>;

/// `serde_json::from_str` at type `Value`. Trusted: the outcome depends on
/// the text alone, so it is named [`parsed`]; nothing is claimed about which
/// texts are accepted or what they hold.
#[verifier::external_body]
pub(crate) fn parse_value(text: &str) -> (r: Result<serde_json::Value, serde_json::Error>)
    ensures
        match r {
            Ok(value) => parsed(text@) == Some(document(value)),
            Err(_) => parsed(text@) is None,
        },
{
    serde_json::from_str::<serde_json::Value>(text)
}

/// `serde_json::to_string_pretty` on a `Value`. Trusted: the outcome depends
/// on the document alone, so it is named [`rendered`]; nothing is claimed
/// about which documents get a text or what the text is.
#[verifier::external_body]
pub(crate) fn render_value(value: &serde_json::Value) -> (r: Result<String, serde_json::Error>)
    ensures
        match r {
            Ok(text) => rendered(document(*value)) == Some(text@),
            Err(_) => rendered(document(*value)) is None,
        },
{
    serde_json::to_string_pretty(value)
}

/// `Value::get` with a string index. Trusted: it returns the member stored
/// under `key` when the value is an object that has one, and `None` otherwise.
#[verifier::external_body]
pub(crate) fn value_member<'a>(value: &'a serde_json::Value, key: &str) -> (r: Option<
    &'a serde_json::Value,
>)
    ensures
        match r {
            Some(found) => doc_member(document(*value), key@) == Some(document(*found)),
            None => doc_member(document(*value), key@) is None,
        },
{
    value.get(key)
}

/// `Value::as_array`. Trusted: it returns the items when the value is an
/// array, and `None` otherwise.
#[verifier::external_body]
pub(crate) fn value_items<'a>(value: &'a serde_json::Value) -> (r: Option<
    &'a Vec<serde_json::Value>,
>)
    ensures
        match r {
            Some(items) => doc_items(document(*value)) == Some(
                items@.map_values(|item: serde_json::Value| document(item)),
            ),
            None => doc_items(document(*value)) is None,
        },
{
    value.as_array()
}

/// `Value::as_str`. Trusted: it returns the text when the value is a string,
/// and `None` otherwise.
#[verifier::external_body]
pub(crate) fn value_text<'a>(value: &'a serde_json::Value) -> (r: Option<&'a str>)
    ensures
        match r {
            Some(text) => doc_text(document(*value)) == Some(text@),
            None => doc_text(document(*value)) is None,
        },
{
    value.as_str()
}

/// The variant `Value::String`. Trusted: the new value holds that text.
#[verifier::external_body]
pub(crate) fn text_value(text: String) -> (value: serde_json::Value)
    ensures
        document(value) == Doc::Text(text@),
{
    serde_json::Value::String(text)
}

/// The variant `Value::Array`. Trusted: the new value holds the items in
/// their order.
#[verifier::external_body]
pub(crate) fn list_value(items: Vec<serde_json::Value>) -> (value: serde_json::Value)
    ensures
        document(value) == Doc::List(items@.map_values(|item: serde_json::Value| document(item))),
{
    serde_json::Value::Array(items)
}

/// The variant `Value::Object` over a `serde_json::Map` collected from the
/// members. Trusted: with keys that differ from one another the map, which
/// keeps insertion order, holds exactly these members in their order.
#[verifier::external_body]
pub(crate) fn object_value(entries: Vec<(String, serde_json::Value)>) -> (value: serde_json::Value)
    requires
        distinct_keys(entries@),
    ensures
        document(value) == Doc::Object(
            entries@.map_values(|entry: (String, serde_json::Value)| (entry.0@, document(entry.1))),
        ),
{
    serde_json::Value::Object(entries.into_iter().collect())
}

} // verus!
