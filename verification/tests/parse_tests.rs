use zephyr::class::{Class, ValueType};
use zephyr::modifiers::Modifiers;
use zephyr::parse::parse_class;

fn owned(v: Vec<&str>) -> Vec<String> {
    v.into_iter().map(|s| s.to_string()).collect()
}

fn check(
    class: &str,
    (property, value, modifiers, pseudo): (&str, Option<&str>, Vec<&str>, Option<&str>),
) {
    assert_eq!(
        parse_class(class),
        Ok(Class {
            property: property.to_string(),
            value: value.map(|s| s.to_string()),
            modifiers: Modifiers::new(owned(modifiers)),
            pseudo: pseudo.map(|s| s.to_string()),
            original: class.to_string(),
            value_type: ValueType::Normal,
        })
    );
}

fn check_with_type(
    class: &str,
    (property, value, modifiers, pseudo, value_type): (
        &str,
        Option<&str>,
        Vec<&str>,
        Option<&str>,
        ValueType,
    ),
) {
    assert_eq!(
        parse_class(class),
        Ok(Class {
            property: property.to_string(),
            value: value.map(|s| s.to_string()),
            modifiers: Modifiers::new(owned(modifiers)),
            pseudo: pseudo.map(|s| s.to_string()),
            original: class.to_string(),
            value_type,
        })
    );
}

#[test]
fn parse_works() {
    check("m[1rem]", ("m", Some("1rem"), vec![], None));
    check(
        "text-align[center]",
        ("text-align", Some("center"), vec![], None),
    );
    check(
        "something[one:two]",
        ("something", Some("one:two"), vec![], None),
    );
    // testing out weird unicode stuffs
    check(
        "he🥰llo[one:two]",
        ("he🥰llo", Some("one:two"), vec![], None),
    );
}

#[test]
fn parse_literal_values() {
    // testing out weird unicode stuffs
    check_with_type(
        "hello{hey_hello}",
        ("hello", Some("hey_hello"), vec![], None, ValueType::Literal),
    );
}

#[test]
fn parse_variable_values() {
    // testing out weird unicode stuffs
    check_with_type(
        "hello(hey_hello)",
        (
            "hello",
            Some("hey_hello"),
            vec![],
            None,
            ValueType::Variable,
        ),
    );
}

#[test]
fn parse_modifier() {
    check("a[b]hover", ("a", Some("b"), vec!["hover"], None));
    check(
        "text-align[center]focus",
        ("text-align", Some("center"), vec!["focus"], None),
    );
}

#[test]
fn parse_multiple_modifiers() {
    check(
        "a[b]hover,focus,odd",
        ("a", Some("b"), vec!["hover", "focus", "odd"], None),
    );
}

#[test]
fn parse_pseudo() {
    check(
        "a[b]hover,focus,odd$before",
        (
            "a",
            Some("b"),
            vec!["hover", "focus", "odd"],
            Some("before"),
        ),
    );
    check(
        "a[b]hover$before$after",
        ("a", Some("b"), vec!["hover"], Some("before$after")),
    );
}

#[test]
fn closing_before_opening_means_no_value() {
    check("a]b[", ("a]b[", None, vec![], None));
    check("a]b[c]", ("a]b[c]", None, vec![], None));
}

#[test]
fn parse_no_value() {
    check("meow", ("meow", None, vec![], None));
    check(
        "a|hover$before$after",
        ("a", None, vec!["hover"], Some("before$after")),
    );
    // no value has preference over value
    check(
        "a[hey]hi|hover$before$after",
        ("a[hey]hi", None, vec!["hover"], Some("before$after")),
    );
}

#[test]
fn parse_invalid_braces() {
    assert_eq!(parse_class("a{b"), Err(zephyr::ZephyrError::InvalidBraces));
    assert_eq!(parse_class("a}b"), Err(zephyr::ZephyrError::InvalidBraces));
    assert_eq!(parse_class("a}b{c"), Err(zephyr::ZephyrError::InvalidBraces));
}
