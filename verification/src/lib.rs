//! The context within which CSS code is parsed, and the interface through
//! which a specified value parses itself from a token cursor.
//!
//! A `ParserContext` is built once for a parse and then only read. A type
//! that implements `Parse` reads its value from a `cssparser::Parser` under
//! such a context; lists of one or more such values follow from the
//! `Separator` that the type declares.

pub mod context;
pub mod cursor;
pub mod error_reporting;
pub mod parser;
pub mod sequence;
pub mod style_traits;
pub mod stylesheets;
pub mod values;
