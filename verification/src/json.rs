//! The boundary to `serde_json`: what is believed of it, and nothing else.

use vstd::prelude::*;

verus! {

/// The two members of a JSON document that an agent message is read from.
///
/// `tag` is the string under the tag key, if the document is an object that
/// has a string there. `count` is the integer under the count key, if the
/// document is an object that has a non-negative integer below 2^64 there.
/// Where the document repeats a key, the last member under it is the one
/// that counts.
#[derive(Clone, Debug)]
pub struct RawMessage {
    pub tag: Option<String>,
    pub count: Option<u64>,
}

/// The mathematical content of a [`RawMessage`].
pub struct RawView {
    pub tag: Option<Seq<char>>,
    pub count: Option<u64>,
}

impl View for RawMessage {
    type V = RawView;

    open spec fn view(&self) -> RawView {
        RawView {
            tag: match self.tag {
                Some(tag) => Some(tag@),
                None => None,
            },
            count: self.count,
        }
    }
}

/// `serde_json::Error`, carried through and never looked into.
#[verifier::external_type_specification]
#[verifier::external_body]
pub struct ExJsonError(serde_json::Error);

/// What `serde_json` reads from `text` under the two keys: `None` where
/// `text` is not one JSON document, else the string member under `tag_key`
/// and the non-negative integer member under `count_key`, each where the
/// document is an object that has such a member.
pub uninterp spec fn json_fields(text: Seq<u8>, tag_key: Seq<char>, count_key: Seq<char>) -> Option<
    RawView,
>;

/// Parses `text` with `serde_json::from_slice` into a `serde_json::Value` and
/// picks two members out of it with `Value::get`, `Value::as_str` and
/// `Value::as_u64`.
///
/// Believed, not proved: the outcome is a function of the three arguments
/// alone, which [`json_fields`] names. The call fails exactly where that
/// function is `None`, and then with the parser's own error.
#[verifier::external_body]
pub(crate) fn read_fields(text: &[u8], tag_key: &str, count_key: &str) -> (r: Result<
    RawMessage,
    serde_json::Error,
>)
    ensures
        r is Ok <==> json_fields(text@, tag_key@, count_key@) is Some,
        r matches Ok(raw) ==> json_fields(text@, tag_key@, count_key@) == Some(raw@),
{
    let doc: serde_json::Value = serde_json::from_slice(text)?;
    Ok(RawMessage {
        tag: doc.get(tag_key).and_then(serde_json::Value::as_str).map(String::from),
        count: doc.get(count_key).and_then(serde_json::Value::as_u64),
    })
}

} // verus!
