//! What a stylesheet hands to the parsing of its rules: where it comes from,
//! the kind of rule being parsed, the base for its URLs and its namespaces.

use std::collections::HashMap;
use vstd::prelude::*;

verus! {

/// The provenance of a stylesheet.
#[derive(Clone, Copy, Debug, PartialEq, Eq, Hash, Structural)]
pub enum Origin {
    /// The defaults of the user agent.
    UserAgent,
    /// The overrides of the user.
    User,
    /// What the author of the document wrote.
    Author,
}

/// The kind of CSS rule that is being parsed.
#[derive(Clone, Copy, Debug, PartialEq, Eq, Hash, Structural)]
pub enum CssRuleType {
    Style,
    Charset,
    Import,
    Media,
    FontFace,
    Page,
    Keyframes,
    Keyframe,
    Namespace,
    CounterStyle,
    Supports,
    Document,
    FontFeatureValues,
    Viewport,
}

/// The data against which the relative URLs of a stylesheet are resolved.
///
/// Parsing never looks inside: it hands the value on to whoever resolves a URL.
#[derive(Clone, Debug, PartialEq, Eq)]
pub struct UrlExtraData {
    /// The base URL, as text.
    pub base: String,
}

/// The namespaces that `@namespace` rules have declared, by prefix.
///
/// The default namespace stands under the empty prefix.
#[derive(Clone, Debug, PartialEq, Eq)]
pub struct Namespaces {
    /// The namespace URL of each prefix.
    pub prefixes: HashMap<String, String>,
}

} // verus!
