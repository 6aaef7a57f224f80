//! The token cursor, `cssparser::Parser`, and what is taken on trust of it.
//!
//! The cursor is opaque here: nothing below says what a call does to it. The
//! contracts speak of results only: of what holds of them whatever the
//! input, and of what the cursor alone decides, under a name.

use vstd::prelude::*;
use crate::parser::{Parse, ParserContext};
use crate::style_traits::StyleParseErrorKind;
use crate::values::UnicodeRange;

verus! {

/// `cssparser::Parser`, the cursor over the tokens of the input.
#[verifier::external_type_specification]
#[verifier::external_body]
pub struct ExParser<'i, 't>(cssparser::Parser<'i, 't>);

/// `cssparser::ParseError`, the failure of a parse with its location.
#[verifier::external_type_specification]
#[verifier::external_body]
#[verifier::reject_recursive_types(E)]
pub struct ExParseError<'i, E>(cssparser::ParseError<'i, E>);

/// `cssparser::BasicParseError`, the failure of one of the cursor's own methods.
#[verifier::external_type_specification]
#[verifier::external_body]
pub struct ExBasicParseError<'i>(cssparser::BasicParseError<'i>);

/// What `cssparser::UnicodeRange::parse` makes of the input at which a cursor
/// stands: the range that it reads there, if it reads one.
pub uninterp spec fn unicode_range_at(input: cssparser::Parser) -> Option<UnicodeRange>;

/// Whether `Parser::expect_delim` finds the delimiter `delim` at which a
/// cursor stands.
pub uninterp spec fn delim_at(input: cssparser::Parser, delim: char) -> bool;

/// `Parser::skip_whitespace` moves the cursor past whitespace and comments.
/// Nothing is claimed of it.
pub assume_specification<'i: 't, 't>[ cssparser::Parser::<'i, 't>::skip_whitespace ](
    input: &mut cssparser::Parser<'i, 't>,
);

/// `Parser::expect_delim` takes the next token and fails unless it is the
/// given delimiter.
///
/// The claim: whether it succeeds rests on the cursor and the delimiter
/// alone, and is what `delim_at` names.
pub assume_specification<'i: 't, 't>[ cssparser::Parser::<'i, 't>::expect_delim ](
    input: &mut cssparser::Parser<'i, 't>,
    expected_value: char,
) -> (r: Result<(), cssparser::BasicParseError<'i>>)
    ensures
        r is Ok <==> delim_at(*old(input), expected_value),
;

/// The conversion of a `BasicParseError` into a `ParseError`, which keeps
/// kind and location. Nothing is claimed of it.
pub assume_specification<'i, T>[ <cssparser::ParseError<'i, T> as From<cssparser::BasicParseError<'i>>>::from ](
    this: cssparser::BasicParseError<'i>,
) -> (e: cssparser::ParseError<'i, T>);

/// `Parser::parse_comma_separated`, with `T::parse` under `context` as the
/// parser of one element.
///
/// The claim: a list that comes back holds at least one element. The cursor
/// pushes the first element, or fails, before it looks for a comma.
#[verifier::external_body]
pub(crate) fn comma_separated<'i, 't, T: Parse>(
    context: &ParserContext,
    input: &mut cssparser::Parser<'i, 't>,
) -> (r: Result<Vec<T>, cssparser::ParseError<'i, StyleParseErrorKind>>)
    ensures
        r matches Ok(items) ==> items@.len() >= 1,
{
    input.parse_comma_separated(|i| T::parse(context, i))
}

/// `Parser::try_parse`, with `T::parse` under `context` as what is tried:
/// where that fails, the cursor is put back to where it stood. Nothing is
/// claimed of the result.
#[verifier::external_body]
pub(crate) fn try_parse<'i, 't, T: Parse>(
    context: &ParserContext,
    input: &mut cssparser::Parser<'i, 't>,
) -> (r: Result<T, cssparser::ParseError<'i, StyleParseErrorKind>>)
{
    input.try_parse(|i| T::parse(context, i))
}

/// `Parser::position`, as the count of bytes from the start of the input
/// that `SourcePosition::byte_index` gives. Nothing is claimed of it.
#[verifier::external_body]
pub(crate) fn position<'i, 't>(input: &cssparser::Parser<'i, 't>) -> (r: usize)
{
    input.position().byte_index()
}

/// `cssparser::UnicodeRange::parse`, with the two ends of the range copied
/// out.
///
/// The claims: what comes back rests on the cursor alone, and is what
/// `unicode_range_at` names; a range that comes back has its ends in order
/// and its last code point at most U+10FFFF, both of which the cursor checks
/// before it answers.
#[verifier::external_body]
pub(crate) fn unicode_range<'i, 't>(
    input: &mut cssparser::Parser<'i, 't>,
) -> (r: Result<UnicodeRange, cssparser::BasicParseError<'i>>)
    ensures
        r matches Ok(range) ==> unicode_range_at(*old(input)) == Some(range),
        r is Err ==> unicode_range_at(*old(input)) is None,
        r matches Ok(range) ==> range.start <= range.end && range.end <= 0x10FFFF,
{
    match cssparser::UnicodeRange::parse(input) {
        Ok(range) => Ok(UnicodeRange { start: range.start, end: range.end }),
        Err(e) => Err(e),
    }
}

} // verus!
