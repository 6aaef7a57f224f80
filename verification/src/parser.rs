//! The context within which CSS code is parsed.

use vstd::prelude::*;
use cssparser::{BasicParseError, Parser};
use crate::context::QuirksMode;
use crate::cursor::{delim_at, unicode_range, unicode_range_at};
use crate::error_reporting::{ContextualParseError, ParseErrorReporter, SourceLocation};
use crate::style_traits::{OneOrMoreSeparated, ParsingMode, StyleParseError};
use crate::stylesheets::{CssRuleType, Namespaces, Origin, UrlExtraData};
use crate::values::{SlashToken, UnicodeRange};

verus! {

/// The context required to report a parse error.
pub struct ParserErrorContext<'a, R: 'a> {
    /// An error reporter to report syntax errors.
    pub error_reporter: &'a R,
}

/// The data that the parser needs from outside in order to parse a stylesheet.
pub struct ParserContext<'a> {
    /// The `Origin` of the stylesheet, whether it's a user, author or
    /// user-agent stylesheet.
    pub stylesheet_origin: Origin,
    /// The extra data we need for resolving url values.
    pub url_data: &'a UrlExtraData,
    /// The current rule type, if any.
    pub rule_type: Option<CssRuleType>,
    /// Line number offsets for inline stylesheets
    pub line_number_offset: u64,
    /// The mode to use when parsing.
    pub parsing_mode: ParsingMode,
    /// The quirks mode of this stylesheet.
    pub quirks_mode: QuirksMode,
    /// The currently active namespaces.
    pub namespaces: Option<&'a Namespaces>,
}

/// The line under which an error on `line` of a stylesheet is reported, where
/// the stylesheet starts `offset` lines into its document: the sum of the
/// two. Only a sum that no line number can hold is reported as the highest
/// line number there is.
pub open spec fn shifted_line(line: u64, offset: u64) -> u64 {
    if line + offset <= u64::MAX {
        (line + offset) as u64
    } else {
        u64::MAX
    }
}

impl<'a> ParserContext<'a> {
    /// Namespaces are known only where a rule type is: only a context made
    /// for the rules within a stylesheet carries them.
    pub open spec fn wf(&self) -> bool {
        self.namespaces is Some ==> self.rule_type is Some
    }

    /// The context that `new` creates.
    pub open spec fn spec_new(
        stylesheet_origin: Origin,
        url_data: &'a UrlExtraData,
        rule_type: Option<CssRuleType>,
        parsing_mode: ParsingMode,
        quirks_mode: QuirksMode,
    ) -> ParserContext<'a> {
        ParserContext {
            stylesheet_origin,
            url_data,
            rule_type,
            line_number_offset: 0,
            parsing_mode,
            quirks_mode,
            namespaces: None,
        }
    }

    /// Create a parser context.
    #[verifier::when_used_as_spec(spec_new)]
    pub fn new(
        stylesheet_origin: Origin,
        url_data: &'a UrlExtraData,
        rule_type: Option<CssRuleType>,
        parsing_mode: ParsingMode,
        quirks_mode: QuirksMode,
    ) -> (context: ParserContext<'a>)
        ensures
            context == Self::spec_new(
                stylesheet_origin,
                url_data,
                rule_type,
                parsing_mode,
                quirks_mode,
            ),
            context.wf(),
    {
        ParserContext {
            stylesheet_origin: stylesheet_origin,
            url_data: url_data,
            rule_type: rule_type,
            line_number_offset: 0u64,
            parsing_mode: parsing_mode,
            quirks_mode: quirks_mode,
            namespaces: None,
        }
    }

    /// The context that `new_for_cssom` creates: that of an author's
    /// stylesheet.
    pub open spec fn spec_new_for_cssom(
        url_data: &'a UrlExtraData,
        rule_type: Option<CssRuleType>,
        parsing_mode: ParsingMode,
        quirks_mode: QuirksMode,
    ) -> ParserContext<'a> {
        Self::spec_new(Origin::Author, url_data, rule_type, parsing_mode, quirks_mode)
    }

    /// Create a parser context for on-the-fly parsing in CSSOM
    #[verifier::when_used_as_spec(spec_new_for_cssom)]
    pub fn new_for_cssom(
        url_data: &'a UrlExtraData,
        rule_type: Option<CssRuleType>,
        parsing_mode: ParsingMode,
        quirks_mode: QuirksMode,
    ) -> (context: ParserContext<'a>)
        ensures
            context == Self::spec_new_for_cssom(url_data, rule_type, parsing_mode, quirks_mode),
            context.stylesheet_origin == Origin::Author,
            context.wf(),
    {
        Self::new(Origin::Author, url_data, rule_type, parsing_mode, quirks_mode)
    }

    /// The context that `new_with_rule_type` creates.
    pub open spec fn spec_new_with_rule_type(
        context: &'a ParserContext,
        rule_type: CssRuleType,
        namespaces: &'a Namespaces,
    ) -> ParserContext<'a> {
        ParserContext {
            stylesheet_origin: context.stylesheet_origin,
            url_data: context.url_data,
            rule_type: Some(rule_type),
            line_number_offset: context.line_number_offset,
            parsing_mode: context.parsing_mode,
            quirks_mode: context.quirks_mode,
            namespaces: Some(namespaces),
        }
    }

    /// Create a parser context based on a previous context, but with a modified rule type.
    #[verifier::when_used_as_spec(spec_new_with_rule_type)]
    pub fn new_with_rule_type(
        context: &'a ParserContext,
        rule_type: CssRuleType,
        namespaces: &'a Namespaces,
    ) -> (derived: ParserContext<'a>)
        ensures
            derived == Self::spec_new_with_rule_type(context, rule_type, namespaces),
            derived.wf(),
    {
        ParserContext {
            stylesheet_origin: context.stylesheet_origin,
            url_data: context.url_data,
            rule_type: Some(rule_type),
            line_number_offset: context.line_number_offset,
            parsing_mode: context.parsing_mode,
            quirks_mode: context.quirks_mode,
            namespaces: Some(namespaces),
        }
    }

    /// The context that `new_with_line_number_offset` creates.
    pub open spec fn spec_new_with_line_number_offset(
        stylesheet_origin: Origin,
        url_data: &'a UrlExtraData,
        line_number_offset: u64,
        parsing_mode: ParsingMode,
        quirks_mode: QuirksMode,
    ) -> ParserContext<'a> {
        ParserContext {
            stylesheet_origin,
            url_data,
            rule_type: None,
            line_number_offset,
            parsing_mode,
            quirks_mode,
            namespaces: None,
        }
    }

    /// Create a parser context for inline CSS which accepts additional line offset argument.
    #[verifier::when_used_as_spec(spec_new_with_line_number_offset)]
    pub fn new_with_line_number_offset(
        stylesheet_origin: Origin,
        url_data: &'a UrlExtraData,
        line_number_offset: u64,
        parsing_mode: ParsingMode,
        quirks_mode: QuirksMode,
    ) -> (context: ParserContext<'a>)
        ensures
            context == Self::spec_new_with_line_number_offset(
                stylesheet_origin,
                url_data,
                line_number_offset,
                parsing_mode,
                quirks_mode,
            ),
            context.rule_type is None,
            context.namespaces is None,
            context.wf(),
    {
        ParserContext {
            stylesheet_origin: stylesheet_origin,
            url_data: url_data,
            rule_type: None,
            line_number_offset: line_number_offset,
            parsing_mode: parsing_mode,
            quirks_mode: quirks_mode,
            namespaces: None,
        }
    }

    /// Whether this context knows the type of the rule being parsed.
    pub open spec fn has_rule_type(&self) -> bool {
        self.rule_type is Some
    }

    /// The rule type of a context that has one.
    pub open spec fn spec_rule_type(&self) -> CssRuleType
        recommends
            self.has_rule_type(),
    {
        self.rule_type->0
    }

    /// Get the rule type, which assumes that one is available.
    #[verifier::when_used_as_spec(spec_rule_type)]
    pub fn rule_type(&self) -> (rule_type: CssRuleType)
        requires
            self.has_rule_type(),
        ensures
            rule_type == self.spec_rule_type(),
            self.rule_type == Some(rule_type),
    {
        self.rule_type.expect("Rule type expected, but none was found.")
    }

    /// The location under which an error at `location` is reported.
    pub open spec fn spec_adjusted_location(&self, location: SourceLocation) -> SourceLocation {
        SourceLocation {
            line: shifted_line(location.line, self.line_number_offset),
            column: location.column,
        }
    }

    /// The location under which an error at `location` of this stylesheet
    /// is reported: the line moved down by the whole line number offset, the
    /// column as it is.
    ///
    /// A line number has 64 bits, so that the sum is exact for every line
    /// that a cursor gives and every offset up to `u64::MAX - u32::MAX`.
    #[verifier::when_used_as_spec(spec_adjusted_location)]
    pub fn adjusted_location(&self, location: SourceLocation) -> (adjusted: SourceLocation)
        ensures
            adjusted == self.spec_adjusted_location(location),
            adjusted.column == location.column,
            location.line + self.line_number_offset <= u64::MAX ==> adjusted.line
                == location.line + self.line_number_offset,
            location.line + self.line_number_offset > u64::MAX ==> adjusted.line == u64::MAX,
    {
        SourceLocation {
            line: location.line.saturating_add(self.line_number_offset),
            column: location.column,
        }
    }

    /// Record a CSS parse error with this context’s error reporting.
    ///
    /// The reporter receives the URL data of this context, `location` as
    /// `adjusted_location` gives it, and `error`.
    pub fn log_css_error<R>(
        &self,
        context: &ParserErrorContext<R>,
        location: SourceLocation,
        error: ContextualParseError,
    ) where R: ParseErrorReporter {
        let location = self.adjusted_location(location);
        context.error_reporter.report_error(self.url_data, location, error)
    }
}

/// A context that `new` creates without a rule type has none: it is no
/// context of which `rule_type` may be asked.
pub proof fn lemma_new_without_rule_type(
    stylesheet_origin: Origin,
    url_data: &UrlExtraData,
    rule_type: Option<CssRuleType>,
    parsing_mode: ParsingMode,
    quirks_mode: QuirksMode,
)
    requires
        rule_type is None,
    ensures
        ParserContext::new(
            stylesheet_origin,
            url_data,
            rule_type,
            parsing_mode,
            quirks_mode,
        ).rule_type is None,
        !ParserContext::new(
            stylesheet_origin,
            url_data,
            rule_type,
            parsing_mode,
            quirks_mode,
        ).has_rule_type(),
{
}

/// A context derived for a rule type has exactly that rule type, the given
/// namespaces, and everything else as its parent has it.
pub proof fn lemma_derived_context(
    context: &ParserContext,
    rule_type: CssRuleType,
    namespaces: &Namespaces,
)
    ensures
        ParserContext::new_with_rule_type(context, rule_type, namespaces).has_rule_type(),
        ParserContext::new_with_rule_type(context, rule_type, namespaces).rule_type() == rule_type,
        ParserContext::new_with_rule_type(context, rule_type, namespaces).namespaces == Some(
            namespaces,
        ),
        ParserContext::new_with_rule_type(context, rule_type, namespaces).stylesheet_origin
            == context.stylesheet_origin,
        ParserContext::new_with_rule_type(context, rule_type, namespaces).url_data
            == context.url_data,
        ParserContext::new_with_rule_type(context, rule_type, namespaces).line_number_offset
            == context.line_number_offset,
        ParserContext::new_with_rule_type(context, rule_type, namespaces).parsing_mode
            == context.parsing_mode,
        ParserContext::new_with_rule_type(context, rule_type, namespaces).quirks_mode
            == context.quirks_mode,
{
}

/// A trait to abstract parsing of a specified value given a `ParserContext` and
/// CSS input.
///
/// An implementation may leave the cursor anywhere when it fails: callers
/// that go on after a failure put the cursor back themselves.
pub trait Parse: Sized {
    /// Parse a value of this type.
    ///
    /// Returns an error on failure.
    fn parse<'i, 't>(context: &ParserContext, input: &mut Parser<'i, 't>) -> Result<
        Self,
        StyleParseError<'i>,
    >;
}

/// The outcome of one of the cursor's own methods, as the outcome of a
/// parse: a value stays as it is, and a failure stays a failure, in the
/// form in which parsers hand failures on.
pub fn from_cursor<'i, T>(outcome: Result<T, BasicParseError<'i>>) -> (r: Result<
    T,
    StyleParseError<'i>,
>)
    ensures
        outcome matches Ok(value) ==> r == Ok::<T, StyleParseError<'i>>(value),
        outcome is Err ==> r is Err,
{
    match outcome {
        Ok(value) => Ok(value),
        Err(e) => Err(StyleParseError::from(e)),
    }
}

impl<T> Parse for Vec<T> where T: Parse + OneOrMoreSeparated {
    /// Parse one or more values of `T`, with the separator that `T` declares
    /// between them. The values come in the order of the input.
    fn parse<'i, 't>(context: &ParserContext, input: &mut Parser<'i, 't>) -> (r: Result<
        Self,
        StyleParseError<'i>,
    >)
        ensures
            r matches Ok(items) ==> items@.len() >= 1,
    {
        T::separator().parse::<T>(context, input)
    }
}

impl Parse for UnicodeRange {
    /// Parse a range of code points: the cursor has a grammar of its own
    /// for it, and what it reads is handed on.
    fn parse<'i, 't>(_context: &ParserContext, input: &mut Parser<'i, 't>) -> (r: Result<
        Self,
        StyleParseError<'i>,
    >)
        ensures
            r is Ok <==> unicode_range_at(*old(input)) is Some,
            r matches Ok(range) ==> unicode_range_at(*old(input)) == Some(range),
            r matches Ok(range) ==> range.wf(),
    {
        from_cursor(unicode_range(input))
    }
}

impl Parse for SlashToken {
    /// Parse a `/`: succeed where the cursor finds one, and only there.
    fn parse<'i, 't>(_context: &ParserContext, input: &mut Parser<'i, 't>) -> (r: Result<
        Self,
        StyleParseError<'i>,
    >)
        ensures
            r is Ok <==> delim_at(*old(input), '/'),
    {
        match from_cursor(input.expect_delim('/')) {
            Ok(()) => Ok(SlashToken),
            Err(e) => Err(e),
        }
    }
}

} // verus!
