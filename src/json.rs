//! An adapter that lets a `serde_json::Value` stand as a scalar: it travels as
//! a string leaf holding its compact JSON text, and it is read back from a
//! string literal or a string input leaf by parsing that text.

use crate::token::{unescape, unescaped, CoercionError, ScalarToken};
use crate::value::{text_leaf, InputValue, OutputValue, ScalarValue};
use vstd::prelude::*;

verus! {

#[verifier::external_type_specification]
#[verifier::external_body]
pub struct ExJsonValue(serde_json::Value);

/// The compact JSON text that serde_json writes for a value.
pub uninterp spec fn json_text(v: serde_json::Value) -> Seq<char>;

/// The value that serde_json reads from a text; `None` where the text is not
/// one JSON document.
pub uninterp spec fn json_parse(s: Seq<char>) -> Option<serde_json::Value>;

/// Relies on serde_json's `Display` for `Value`, reached through `to_string`:
/// the compact JSON text, which depends on the value alone.
#[verifier::external_body]
fn write_json(v: &serde_json::Value) -> (r: String)
    ensures
        r@ == json_text(*v),
{
    v.to_string()
}

/// Relies on `serde_json::from_str::<Value>`: the document that the text holds,
/// or an error (dropped here) where it holds none; depends on the text alone.
#[verifier::external_body]
fn parse_json(s: &str) -> (r: Option<serde_json::Value>)
    ensures
        r == json_parse(s@),
{
    serde_json::from_str(s).ok()
}

/// What `from_input_value` reads from an input node: the parse of the text of
/// a string leaf, and nothing from any other node.
pub open spec fn from_input_spec(v: InputValue) -> Option<serde_json::Value> {
    match v.string_of() {
        Some(s) => json_parse(s),
        None => None,
    }
}

/// The text that a string literal's raw body `s` hands on: its decoded text
/// where its escapes decode, and the body as written where they do not.
pub open spec fn literal_text(s: Seq<char>) -> Seq<char> {
    match unescaped(s) {
        Some(u) => u,
        None => s,
    }
}

/// Whether `r` is what `from_str` gives for the token `t`: for a string
/// literal, its `literal_text` as a string scalar; for any other token,
/// `UnexpectedToken(t)`.
pub open spec fn from_str_spec<'a>(
    t: ScalarToken<'a>,
    r: Result<ScalarValue, CoercionError<'a>>,
) -> bool {
    match t {
        ScalarToken::String(s) => r matches Ok(ScalarValue::String(o)) && o@ == literal_text(s@),
        _ => r == Err::<ScalarValue, CoercionError<'a>>(CoercionError::UnexpectedToken(t)),
    }
}

/// Whether `o` is what `resolve` gives for `v`: a string leaf with the
/// value's compact JSON text.
pub open spec fn resolve_spec(v: serde_json::Value, o: OutputValue) -> bool {
    text_leaf(o) == Some(json_text(v))
}

/// The output leaf for a value: its compact JSON text, as a string.
pub fn resolve(v: &serde_json::Value) -> (r: OutputValue)
    ensures
        resolve_spec(*v, r),
{
    OutputValue::scalar(ScalarValue::String(write_json(v)))
}

/// The value that an input node stands for: a string leaf whose text parses as
/// JSON gives the parsed value; any other node, or text that does not parse,
/// gives `None`.
pub fn from_input_value(v: &InputValue) -> (r: Option<serde_json::Value>)
    ensures
        r == from_input_spec(*v),
        v.string_of() is None ==> r is None,
{
    match v.as_string_value() {
        Some(s) => parse_json(s),
        None => None,
    }
}

/// As `from_input_value`, with a refusal reported as `InvalidInputShape`.
pub fn coerce_input_value<'a>(v: &InputValue) -> (r: Result<serde_json::Value, CoercionError<'a>>)
    ensures
        from_input_spec(*v) matches Some(j) ==> r == Ok::<serde_json::Value, CoercionError<'a>>(j),
        from_input_spec(*v) is None ==> r == Err::<serde_json::Value, CoercionError<'a>>(
            CoercionError::InvalidInputShape,
        ),
{
    match from_input_value(v) {
        Some(j) => Ok(j),
        None => Err(CoercionError::InvalidInputShape),
    }
}

/// The normalised scalar for a literal, chosen by lexical category alone:
/// every string literal is accepted and gives its decoded text as a string
/// scalar (the body as written where an escape is malformed, for
/// `from_input_value` to refuse later); any other token is refused with
/// `UnexpectedToken`.
pub fn from_str<'a>(t: ScalarToken<'a>) -> (r: Result<ScalarValue, CoercionError<'a>>)
    ensures
        from_str_spec(t, r),
        r is Ok <==> t is String,
{
    match t {
        ScalarToken::String(s) => match unescape(s) {
            Some(o) => Ok(ScalarValue::String(o)),
            None => Ok(ScalarValue::String(s.to_owned())),
        },
        _ => Err(CoercionError::UnexpectedToken(t)),
    }
}

/// The name under which the adapter is registered in a schema.
pub const JSON_SCALAR_NAME: &'static str = "JsonValue";

/// The adapter's description, for documentation only.
pub const JSON_SCALAR_DESCRIPTION: &'static str = "JSON serialized as a string";

/// Re-submitting what `resolve` shows a client brings back what serde_json
/// reads from that text: a value read from a string literal, written out by
/// `resolve`, and submitted again as a string literal that spells the written
/// text, is read by `from_input_value` as the parse of the value's own JSON
/// text. The adapter neither alters nor drops anything on the
/// way; the rest is serde_json's writing and reading.
pub proof fn lemma_round_trip<'a>(
    lit: ScalarToken<'a>,
    read: ScalarValue,
    v: serde_json::Value,
    out: OutputValue,
    again: ScalarToken<'a>,
    reread: ScalarValue,
)
    requires
        from_str_spec(lit, Ok(read)),
        from_input_spec(InputValue::Scalar(read)) == Some(v),
        resolve_spec(v, out),
        again matches ScalarToken::String(t) && unescaped(t@) == text_leaf(out),
        from_str_spec(again, Ok(reread)),
    ensures
        lit matches ScalarToken::String(s) && json_parse(literal_text(s@)) == Some(v),
        from_input_spec(InputValue::Scalar(reread)) == json_parse(json_text(v)),
{
}

/// Writing out one value twice gives leaves that cannot be told apart: the
/// same string text.
pub proof fn lemma_resolve_idempotent(v: serde_json::Value, a: OutputValue, b: OutputValue)
    requires
        resolve_spec(v, a),
        resolve_spec(v, b),
    ensures
        text_leaf(a) == text_leaf(b),
        a is Scalar && b is Scalar,
{
}

} // verus!
