//! The JSON documents that the node sends, read through `serde_json`.

use vstd::prelude::*;

verus! {

/// A JSON document as a value: the six kinds of JSON, with the text of each
/// string, the items of each array and the members of each object. What a
/// number is worth is left out: nothing here reads one.
pub enum Json {
    Null,
    Bool(bool),
    Number,
    Text(Seq<char>),
    Array(Seq<Json>),
    Object(Map<Seq<char>, Json>),
}

impl Json {
    /// The member of an object under a key; `None` where the document is no
    /// object, or an object without that key.
    pub open spec fn member(self, key: Seq<char>) -> Option<Json> {
        match self {
            Json::Object(members) => if members.contains_key(key) {
                Some(members[key])
            } else {
                None
            },
            _ => None,
        }
    }

    /// The text of a string; `None` for a document of any other kind.
    pub open spec fn text(self) -> Option<Seq<char>> {
        match self {
            Json::Text(text) => Some(text),
            _ => None,
        }
    }
}

/// A parsed JSON document of `serde_json`. Nothing of its inside is visible
/// to the verifier: it is read through [`parse`], [`member`] and `as_str`.
#[verifier::external_type_specification]
#[verifier::external_body]
pub struct ExValue(serde_json::Value);

/// The error of `serde_json` for a text that is no JSON document.
#[verifier::external_type_specification]
#[verifier::external_body]
pub struct ExError(serde_json::Error);

/// What a document of `serde_json` holds.
pub uninterp spec fn json_tree(doc: serde_json::Value) -> Json;

/// What `serde_json::from_str` reads from a text: the document that the
/// text spells, `None` where it rejects the text.
pub uninterp spec fn json_read(text: Seq<char>) -> Option<Json>;

/// The document behind an optional reference.
pub open spec fn tree_of(doc: Option<&serde_json::Value>) -> Option<Json> {
    match doc {
        Some(d) => Some(json_tree(*d)),
        None => None,
    }
}

/// `serde_json::from_str`, reading a `Value`. The contract claims that the
/// outcome depends on the text alone: a text is always accepted or always
/// rejected, and an accepted text always gives a document that holds the
/// same, which [`json_read`] names.
#[verifier::external_body]
pub(crate) fn parse(text: &str) -> (r: Result<serde_json::Value, serde_json::Error>)
    ensures
        r is Ok <==> json_read(text@) is Some,
        r matches Ok(doc) ==> json_read(text@) == Some(json_tree(doc)),
{
    serde_json::from_str::<serde_json::Value>(text)
}

/// `serde_json::Value::get` with a string key. The contract claims what
/// its documentation says: the member of an object under that key, and
/// `None` where the document is no object or has no such member.
#[verifier::external_body]
pub(crate) fn member<'a>(doc: &'a serde_json::Value, key: &str) -> (r: Option<
    &'a serde_json::Value,
>)
    ensures
        tree_of(r) == json_tree(*doc).member(key@),
{
    doc.get(key)
}

/// `serde_json::Value::as_str`. The contract claims what its documentation
/// says: the text of a string, and `None` for a document of any other
/// kind.
pub assume_specification[ serde_json::Value::as_str ](doc: &serde_json::Value) -> (r: Option<&str>)
    ensures
        r is Some <==> json_tree(*doc).text() is Some,
        r matches Some(s) ==> json_tree(*doc).text() == Some(s@),
;

} // verus!
