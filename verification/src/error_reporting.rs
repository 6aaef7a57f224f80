//! What is reported when CSS fails to parse, and to whom.

use vstd::prelude::*;
use crate::style_traits::StyleParseError;
use crate::stylesheets::UrlExtraData;

verus! {

/// The line and column of a position in the input.
#[derive(Clone, Copy, Debug, PartialEq, Eq, Hash, Structural)]
pub struct SourceLocation {
    /// The line number, starting at 0 for the first line. It is wide enough
    /// for a line of an inline stylesheet far into its document.
    pub line: u64,
    /// The column number within the line, starting at 1.
    pub column: u32,
}

/// Errors that can be encountered while parsing CSS, each with the piece of
/// the input that it is about.
#[derive(Debug, PartialEq)]
pub enum ContextualParseError<'a> {
    /// A property declaration was not recognized.
    UnsupportedPropertyDeclaration(&'a str, StyleParseError<'a>),
    /// A rule was invalid for some reason.
    InvalidRule(&'a str, StyleParseError<'a>),
    /// A rule was not recognized.
    UnsupportedRule(&'a str, StyleParseError<'a>),
    /// A counter style rule had no symbols.
    InvalidCounterStyleWithoutSymbols(String),
}

/// A generic trait for an error reporter.
pub trait ParseErrorReporter {
    /// Called when the style engine detects an error.
    ///
    /// Receives the URL data of the stylesheet being parsed, the location
    /// in it that the error is about, and the error.
    fn report_error(&self, url: &UrlExtraData, location: SourceLocation, error: ContextualParseError);
}

} // verus!
