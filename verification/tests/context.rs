use std::collections::HashMap;

use style_parser::context::QuirksMode;
use style_parser::parser::ParserContext;
use style_parser::style_traits::{
    ParsingMode, PARSING_MODE_ALL, PARSING_MODE_ALLOW_ALL_NUMERIC_VALUES,
    PARSING_MODE_ALLOW_UNITLESS_LENGTH, PARSING_MODE_DEFAULT,
};
use style_parser::stylesheets::{CssRuleType, Namespaces, Origin, UrlExtraData};

fn url(text: &str) -> UrlExtraData {
    UrlExtraData { base: String::from(text) }
}

fn svg_namespaces() -> Namespaces {
    let mut prefixes = HashMap::new();
    prefixes.insert(String::new(), String::from("http://www.w3.org/1999/xhtml"));
    prefixes.insert(String::from("svg"), String::from("http://www.w3.org/2000/svg"));
    Namespaces { prefixes }
}

#[test]
fn parsing_mode_flags_are_distinct_bits() {
    assert_eq!(PARSING_MODE_DEFAULT, 0x00);
    assert_eq!(PARSING_MODE_ALLOW_UNITLESS_LENGTH, 0x01);
    assert_eq!(PARSING_MODE_ALLOW_ALL_NUMERIC_VALUES, 0x02);
    assert_eq!(PARSING_MODE_ALL, 0x03);
    assert_eq!(
        PARSING_MODE_ALL,
        PARSING_MODE_DEFAULT
            | PARSING_MODE_ALLOW_UNITLESS_LENGTH
            | PARSING_MODE_ALLOW_ALL_NUMERIC_VALUES
    );
}

#[test]
fn new_keeps_its_arguments() {
    let url = url("https://example.org/a.css");
    let context = ParserContext::new(
        Origin::User,
        &url,
        Some(CssRuleType::Media),
        ParsingMode { bits: PARSING_MODE_ALLOW_UNITLESS_LENGTH },
        QuirksMode::Quirks,
    );
    assert_eq!(context.stylesheet_origin, Origin::User);
    assert!(std::ptr::eq(context.url_data, &url));
    assert_eq!(context.rule_type, Some(CssRuleType::Media));
    assert_eq!(context.line_number_offset, 0);
    assert_eq!(context.parsing_mode, ParsingMode { bits: 0x01 });
    assert_eq!(context.quirks_mode, QuirksMode::Quirks);
    assert!(context.namespaces.is_none());
}

#[test]
fn new_without_rule_type_has_none() {
    let url = url("https://example.org/a.css");
    for origin in [Origin::UserAgent, Origin::User, Origin::Author] {
        for quirks_mode in [QuirksMode::Quirks, QuirksMode::LimitedQuirks, QuirksMode::NoQuirks] {
            let context = ParserContext::new(
                origin,
                &url,
                None,
                ParsingMode { bits: PARSING_MODE_DEFAULT },
                quirks_mode,
            );
            assert_eq!(context.rule_type, None);
            assert_eq!(context.stylesheet_origin, origin);
            assert_eq!(context.quirks_mode, quirks_mode);
            assert_eq!(context.line_number_offset, 0);
            assert!(context.namespaces.is_none());
        }
    }
}

#[test]
fn new_for_cssom_is_an_author_context() {
    let url = url("about:blank");
    let context = ParserContext::new_for_cssom(
        &url,
        Some(CssRuleType::Keyframe),
        ParsingMode { bits: PARSING_MODE_ALLOW_ALL_NUMERIC_VALUES },
        QuirksMode::LimitedQuirks,
    );
    assert_eq!(context.stylesheet_origin, Origin::Author);
    assert!(std::ptr::eq(context.url_data, &url));
    assert_eq!(context.rule_type, Some(CssRuleType::Keyframe));
    assert_eq!(context.rule_type(), CssRuleType::Keyframe);
    assert_eq!(context.line_number_offset, 0);
    assert_eq!(context.parsing_mode, ParsingMode { bits: 0x02 });
    assert_eq!(context.quirks_mode, QuirksMode::LimitedQuirks);
    assert!(context.namespaces.is_none());

    let bare = ParserContext::new_for_cssom(
        &url,
        None,
        ParsingMode { bits: PARSING_MODE_DEFAULT },
        QuirksMode::NoQuirks,
    );
    assert_eq!(bare.stylesheet_origin, Origin::Author);
    assert_eq!(bare.rule_type, None);
}

#[test]
fn derived_context_has_the_rule_type_and_the_rest_of_its_parent() {
    let url = url("https://example.org/inline.html");
    let namespaces = svg_namespaces();
    let parent = ParserContext::new_with_line_number_offset(
        Origin::UserAgent,
        &url,
        41,
        ParsingMode { bits: 0x03 },
        QuirksMode::LimitedQuirks,
    );
    let derived = ParserContext::new_with_rule_type(&parent, CssRuleType::Media, &namespaces);
    assert_eq!(derived.rule_type(), CssRuleType::Media);
    assert_eq!(derived.rule_type, Some(CssRuleType::Media));
    assert_eq!(derived.stylesheet_origin, Origin::UserAgent);
    assert!(std::ptr::eq(derived.url_data, &url));
    assert_eq!(derived.url_data.base, "https://example.org/inline.html");
    assert_eq!(derived.line_number_offset, 41);
    assert_eq!(derived.parsing_mode, ParsingMode { bits: 0x03 });
    assert_eq!(derived.quirks_mode, QuirksMode::LimitedQuirks);
    let seen = derived.namespaces.expect("a derived context carries namespaces");
    assert!(std::ptr::eq(seen, &namespaces));
    assert_eq!(seen.prefixes.get("svg").map(String::as_str), Some("http://www.w3.org/2000/svg"));
    assert_eq!(seen.prefixes.get("").map(String::as_str), Some("http://www.w3.org/1999/xhtml"));
}

#[test]
fn derived_context_overrides_the_rule_type_of_its_parent() {
    let url = url("https://example.org/a.css");
    let namespaces = Namespaces { prefixes: HashMap::new() };
    let top = ParserContext::new(
        Origin::Author,
        &url,
        Some(CssRuleType::Style),
        ParsingMode { bits: PARSING_MODE_DEFAULT },
        QuirksMode::NoQuirks,
    );
    let media = ParserContext::new_with_rule_type(&top, CssRuleType::Media, &namespaces);
    let keyframes = ParserContext::new_with_rule_type(&media, CssRuleType::Keyframes, &namespaces);
    assert_eq!(top.rule_type(), CssRuleType::Style);
    assert_eq!(media.rule_type(), CssRuleType::Media);
    assert_eq!(keyframes.rule_type(), CssRuleType::Keyframes);
    assert_eq!(keyframes.stylesheet_origin, Origin::Author);
    assert_eq!(keyframes.line_number_offset, 0);
    assert!(top.namespaces.is_none());
    assert!(keyframes.namespaces.is_some());
}

#[test]
fn inline_context_has_neither_rule_type_nor_namespaces() {
    let url = url("https://example.org/page.html");
    for offset in [0u64, 1, 5, 4_294_967_295, 4_294_967_296, u64::MAX] {
        let context = ParserContext::new_with_line_number_offset(
            Origin::Author,
            &url,
            offset,
            ParsingMode { bits: PARSING_MODE_DEFAULT },
            QuirksMode::NoQuirks,
        );
        assert_eq!(context.rule_type, None);
        assert!(context.namespaces.is_none());
        assert_eq!(context.line_number_offset, offset);
        assert_eq!(context.stylesheet_origin, Origin::Author);
        assert!(std::ptr::eq(context.url_data, &url));
        assert_eq!(context.parsing_mode, ParsingMode { bits: 0 });
        assert_eq!(context.quirks_mode, QuirksMode::NoQuirks);
    }
}

fn shareable<T: Send + Sync>() {}

#[test]
fn contexts_can_be_shared_between_threads() {
    shareable::<ParserContext<'static>>();
    shareable::<UrlExtraData>();
    shareable::<Namespaces>();
}
