//! What value parsers share: the leniency flags of a parse, the failure of
//! one, and the separators of lists.

use vstd::prelude::*;

verus! {

/// In CSS, lengths must have units, except for zero values, where the unit
/// can be omitted.
pub const PARSING_MODE_DEFAULT: u8 = 0x00;

/// In SVG, a coordinate or length value without a unit identifier (e.g.,
/// "25") is assumed to be in user units (px).
pub const PARSING_MODE_ALLOW_UNITLESS_LENGTH: u8 = 0x01;

/// In SVG, out-of-range values are not treated as an error in parsing.
pub const PARSING_MODE_ALLOW_ALL_NUMERIC_VALUES: u8 = 0x02;

/// All the flags that there are.
pub const PARSING_MODE_ALL: u8 = 0x03;

/// The mode to use when parsing values: a set of leniency flags.
#[derive(Clone, Copy, Debug, PartialEq, Eq, Hash, Structural)]
pub struct ParsingMode {
    /// The flags that are set, one bit each.
    pub bits: u8,
}

/// Why a value failed to parse, where the cursor itself has no word for it.
#[derive(Clone, Debug, PartialEq, Eq)]
pub enum StyleParseErrorKind {
    /// The value does not match its grammar.
    UnspecifiedError,
    /// A dimension stands where the grammar has none, or has an unknown unit.
    UnexpectedDimension,
}

/// The failure of a parse: what went wrong, and where in the input.
///
/// The library hands such a value on and never looks inside.
pub type StyleParseError<'i> = cssparser::ParseError<'i, StyleParseErrorKind>;

/// What stands between the elements of a list of one or more values.
#[derive(Clone, Copy, Debug, PartialEq, Eq, Hash, Structural)]
pub enum Separator {
    /// A comma. Each element has the input up to the next comma for itself.
    Comma,
    /// Whitespace, which may be absent where two tokens are distinct without it.
    Space,
    /// A slash.
    Slash,
}

/// Marks a type whose values can stand in a list of one or more, and names
/// the separator of that list.
pub trait OneOrMoreSeparated {
    /// The separator between the values of this type.
    fn separator() -> Separator;
}

} // verus!
