//! Indentation styles of the formatter.

use vstd::prelude::*;

verus! {

/// How a formatted document is indented.
#[derive(Clone, Copy, Debug, PartialEq, Eq, Structural)]
pub enum IndentType {
    /// Two spaces per nesting level.
    Spaces2,
    /// Four spaces per nesting level.
    Spaces4,
    /// One tab per nesting level.
    Tab,
    /// No whitespace and no line breaks at all.
    Compact,
}

/// The bytes that one nesting level adds under a pretty-printing style.
pub open spec fn indent_unit(indent: IndentType) -> Seq<u8> {
    match indent {
        IndentType::Spaces2 => seq![0x20u8, 0x20u8],
        IndentType::Spaces4 => seq![0x20u8, 0x20u8, 0x20u8, 0x20u8],
        IndentType::Tab => seq![0x09u8],
        IndentType::Compact => Seq::empty(),
    }
}

/// The bytes that one nesting level adds under `indent`.
pub fn indent_unit_bytes(indent: IndentType) -> (r: Vec<u8>)
    ensures
        r@ == indent_unit(indent),
{
    let r = match indent {
        IndentType::Spaces2 => vec![0x20u8, 0x20u8],
        IndentType::Spaces4 => vec![0x20u8, 0x20u8, 0x20u8, 0x20u8],
        IndentType::Tab => vec![0x09u8],
        IndentType::Compact => Vec::new(),
    };
    assert(r@ =~= indent_unit(indent));
    r
}

} // verus!
