//! The outside parsers and serialisers that the pipeline calls, with what it relies on of each.

use vstd::prelude::*;
use crate::outcome::Position;

verus! {

#[verifier::external_type_specification]
#[verifier::external_body]
pub struct ExJsonValue(serde_json::Value);

/// The value that `json5::from_str` reads from a text when no stack or call limit of pest
/// stops it, or `None` where its grammar rejects the text.
pub uninterp spec fn json5_value(s: Seq<char>) -> Option<serde_json::Value>;

/// The value that `serde_json::from_str` reads from a text, or `None` where it rejects it.
pub uninterp spec fn strict_value(s: Seq<char>) -> Option<serde_json::Value>;

/// The compact text that serde_json writes for a value.
pub uninterp spec fn compact_json(v: serde_json::Value) -> Seq<char>;

/// The text that serde_json's pretty printer writes for a value, given one level of indentation.
pub uninterp spec fn pretty_json(v: serde_json::Value, unit: Seq<u8>) -> Seq<char>;

/// Relies on `json5::from_str::<serde_json::Value>`: reads the relaxed grammar (comments,
/// trailing commas, unquoted keys, single quotes). A value it returns depends on the text
/// alone, and a text that its grammar rejects is never accepted; but pest may also fail on
/// an accepted text, when the thread's stack runs low or a call limit set in the process is
/// reached, so an error does not mean that the grammar rejects the text. An error comes
/// with its message and, where pest located it, its line and column.
#[verifier::external_body]
pub(crate) fn parse_json5(s: &str) -> (r: Result<serde_json::Value, (String, Option<Position>)>)
    ensures
        r is Ok ==> json5_value(s@) == Some(r->Ok_0),
        json5_value(s@) is None ==> r is Err,
{
    match json5::from_str::<serde_json::Value>(s) {
        Ok(v) => Ok(v),
        Err(json5::Error::Message { msg, location }) => Err((
            msg,
            location.map(|l| Position { line: l.line, column: l.column }),
        )),
    }
}

/// Relies on `serde_json::from_str::<serde_json::Value>`: reads standard JSON; the outcome
/// depends on the text alone. An error comes with its message, line and column.
#[verifier::external_body]
pub(crate) fn parse_strict(s: &str) -> (r: Result<serde_json::Value, (String, Option<Position>)>)
    ensures
        r is Ok <==> strict_value(s@) is Some,
        r is Ok ==> strict_value(s@) == Some(r->Ok_0),
{
    match serde_json::from_str::<serde_json::Value>(s) {
        Ok(v) => Ok(v),
        Err(e) => Err((e.to_string(), Some(Position { line: e.line(), column: e.column() }))),
    }
}

/// Relies on `Display` of `serde_json::Value`, which writes the compact form through
/// serde_json's `CompactFormatter`: no whitespace between tokens, and every control
/// character inside a string escaped, so no line break.
#[verifier::external_body]
pub(crate) fn compact_text(v: &serde_json::Value) -> (r: String)
    ensures
        r@ == compact_json(*v),
        !r@.contains('\n'),
{
    v.to_string()
}

/// Relies on serde_json's `Serializer` with `PrettyFormatter::with_indent(unit)`: the
/// pretty form of the value, `unit` once more for each level of nesting. The result
/// depends on the value and `unit` alone; the two fallbacks are never taken, since a
/// `Value` always serialises into a `Vec` and serde_json writes UTF-8 only.
#[verifier::external_body]
pub(crate) fn pretty_text(v: &serde_json::Value, unit: &Vec<u8>) -> (r: String)
    ensures
        r@ == pretty_json(*v, unit@),
{
    let formatter = serde_json::ser::PrettyFormatter::with_indent(unit.as_slice());
    let mut ser = serde_json::Serializer::with_formatter(Vec::new(), formatter);
    match serde::Serialize::serialize(v, &mut ser) {
        Ok(()) => String::from_utf8(ser.into_inner()).unwrap_or_default(),
        Err(_) => String::new(),
    }
}

} // verus!
