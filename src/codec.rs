use serde_json::Value;
use vstd::prelude::*;

verus! {

/// `serde_json::Value`, a JSON document held as a tree.
#[verifier::external_type_specification]
#[verifier::external_body]
pub struct ExValue(Value);

/// What serde_json's parser makes of `text`: the document it holds, or
/// nothing when `text` is no JSON document.
pub uninterp spec fn decoded_of(text: Seq<u8>) -> Option<Value>;

/// The JSON text that serde_json writes for `document`.
pub uninterp spec fn json_text_of(document: Value) -> Seq<char>;

/// Whether `text` is a JSON document, as serde_json's parser reads it.
pub open spec fn is_json_document(text: Seq<u8>) -> bool {
    decoded_of(text) is Some
}

/// Relies on `serde_json::to_string`: the document written as JSON text. A
/// `Value` always encodes: its maps have string keys, and the text is written
/// into memory.
#[verifier::external_body]
pub(crate) fn encode(document: &Value) -> (r: Result<String, serde_json::Error>)
    ensures
        r is Ok,
        r is Ok ==> r->Ok_0@ == json_text_of(*document),
{
    serde_json::to_string(document)
}

/// Relies on `serde_json::from_slice`: it parses exactly the JSON documents,
/// the same text always to the same document, and an empty text is none.
#[verifier::external_body]
pub(crate) fn decode(text: &[u8]) -> (r: Result<Value, serde_json::Error>)
    ensures
        r is Ok <==> decoded_of(text@) is Some,
        r is Ok ==> decoded_of(text@) == Some(r->Ok_0),
        text@.len() == 0 ==> r is Err,
{
    serde_json::from_slice(text)
}

} // verus!
