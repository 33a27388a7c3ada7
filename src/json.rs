use vstd::prelude::*;

verus! {

#[verifier::external_type_specification]
#[verifier::external_body]
pub struct ExValue(serde_json::Value);

/// The JSON text that serde_json writes for a value, or the encoder's error message.
pub uninterp spec fn json_text(v: serde_json::Value) -> Result<Seq<char>, Seq<char>>;

/// The value that serde_json reads from a text, or the parser's error message.
pub uninterp spec fn json_parsed(text: Seq<char>) -> Result<serde_json::Value, Seq<char>>;

/// The text that a byte string decodes to when each invalid UTF-8 sequence is
/// replaced by U+FFFD.
pub uninterp spec fn lossy_text(bytes: Seq<u8>) -> Seq<char>;

/// The view of a result whose error is a message.
pub open spec fn text_result<T>(r: Result<T, String>) -> Result<T, Seq<char>> {
    match r {
        Ok(v) => Ok(v),
        Err(m) => Err(m@),
    }
}

/// The view of a text result whose error is a message.
pub open spec fn string_result(r: Result<String, String>) -> Result<Seq<char>, Seq<char>> {
    match r {
        Ok(t) => Ok(t@),
        Err(m) => Err(m@),
    }
}

/// Relies on serde_json::to_string: compact JSON text of the value, or the
/// error's message; both depend on the value alone.
#[verifier::external_body]
pub(crate) fn encode_json(v: &serde_json::Value) -> (r: Result<String, String>)
    ensures
        string_result(r) == json_text(*v),
{
    serde_json::to_string(v).map_err(|e| e.to_string())
}

/// Relies on serde_json::from_str for `Value`: one JSON value read from the
/// whole text, or the error's message; both depend on the text alone.
#[verifier::external_body]
pub(crate) fn decode_json(s: &str) -> (r: Result<serde_json::Value, String>)
    ensures
        text_result(r) == json_parsed(s@),
{
    serde_json::from_str::<serde_json::Value>(s).map_err(|e| e.to_string())
}

/// Relies on String::from_utf8_lossy: the bytes as text, with each invalid
/// UTF-8 sequence replaced rather than rejected.
#[verifier::external_body]
pub(crate) fn lossy_utf8(b: &[u8]) -> (r: String)
    ensures
        r@ == lossy_text(b@),
{
    String::from_utf8_lossy(b).into_owned()
}

} // verus!
