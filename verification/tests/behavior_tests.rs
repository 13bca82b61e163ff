use zephyr::table::{SpecialTemplate, Table};
use zephyr::{Zephyr, ZephyrError};

fn owned(v: Vec<&str>) -> Vec<String> {
    v.into_iter().map(|s| s.to_string()).collect()
}

#[test]
fn unregistered_tokens_fall_back_to_themselves() {
    // every lookup table falls back to the raw token: an empty registry
    // still renders property, value, modifier and pseudo-element verbatim
    let z = Zephyr::new_without_defaults();
    let css = z.generate_class("foo[bar]baz$qux").unwrap();
    assert_eq!(css, r#".foo\[bar\]baz\$qux:baz::qux{foo:bar}"#);
}

#[test]
fn duplicates_are_dropped_keeping_first_seen_order() {
    let z = Zephyr::new();
    let with_dup = z.generate_classes(&owned(vec!["flex-row", "flex-row", "mt[1rem]"]));
    let without_dup = z.generate_classes(&owned(vec!["flex-row", "mt[1rem]"]));
    assert_eq!(with_dup, without_dup);
    assert_eq!(
        with_dup,
        r#".flex-row{display:flex;flex-direction:row}.mt\[1rem\]{margin-top:1rem}"#
    );
}

#[test]
fn selector_escapes_brackets_and_prefixes_dot() {
    let z = Zephyr::new();
    let css = z.generate_class("m[1rem]").unwrap();
    assert!(css.starts_with('.'));
    assert!(css.contains(r#"\[1rem\]"#));
    assert_eq!(css, r#".m\[1rem\]{margin:1rem}"#);
}

#[test]
fn special_expands_to_two_declarations_with_same_value() {
    let z = Zephyr::new();
    let css = z.generate_class("mx[1rem]").unwrap();
    assert_eq!(css, r#".mx\[1rem\]{margin-left:1rem;margin-right:1rem}"#);

    // a custom two-property special behaves the same way
    let mut z = Zephyr::new_without_defaults();
    z.specials.set(
        "inset-x",
        SpecialTemplate::new(owned(vec!["left:", ";right:", ""])),
    );
    let css = z.generate_class("inset-x[4px]").unwrap();
    assert_eq!(css, r#".inset-x\[4px\]{left:4px;right:4px}"#);
}

#[test]
fn context_aware_value_is_property_scoped() {
    let mut z = Zephyr::new_without_defaults();
    z.properties.set("tt", "text-transform");
    let mut scoped = Table::new();
    scoped.set("u", "uppercase");
    z.context_aware_values.set("text-transform", scoped);

    // under the property that registers `u`, the shorthand resolves
    let css = z.generate_class("tt[u]").unwrap();
    assert_eq!(css, r#".tt\[u\]{text-transform:uppercase}"#);

    // under any other property it must NOT resolve: the raw value stays
    let css = z.generate_class("zz[u]").unwrap();
    assert_eq!(css, r#".zz\[u\]{zz:u}"#);
}

#[test]
fn literal_value_skips_lookup_and_substitution() {
    let z = Zephyr::new();
    // `full` is registered as a global value shorthand for 100%, but a
    // literal value must not be resolved, and underscores must stay
    let css = z.generate_class("w{full}").unwrap();
    assert_eq!(css, r#".w\{full\}{width:full}"#);
    let css = z.generate_class("w{a_b}").unwrap();
    assert_eq!(css, r#".w\{a_b\}{width:a_b}"#);
}

#[test]
fn round_trip_modifier_chain_order() {
    let z = Zephyr::new();
    let css = z.generate_classes(&owned(vec!["m[1rem]focus,hover,odd"]));
    assert_eq!(
        css,
        r#".m\[1rem\]focus,hover,odd:focus:hover:nth-child\(odd\){margin:1rem}"#
    );
}

#[test]
fn out_of_order_brackets_fall_back_to_no_value() {
    let z = Zephyr::new();
    // `a]b[` parses as a bare property named `a]b[`; with no registered
    // no-value declaration it cannot produce css
    assert_eq!(z.generate_class("a]b["), Err(ZephyrError::ValueMissing));
    // and a failing token is skipped by the batch without aborting it
    let css = z.generate_classes(&owned(vec!["a]b[", "flex"]));
    assert_eq!(css, r#".flex{display:flex}"#);
}

#[test]
fn context_value_under_exact_breakpoint_and_motion() {
    let z = Zephyr::new();
    let css = z.generate_classes(&owned(vec!["tt[u]@xl,motion-reduce"]));
    assert_eq!(
        css,
        r#"@media(min-width:1280px)and(max-width:1535.9px)and(prefers-reduced-motion:reduce){.tt\[u\]\@xl,motion-reduce{text-transform:uppercase}}"#
    );
}

#[test]
fn errors_name_their_cause() {
    let z = Zephyr::new();
    assert_eq!(z.generate_class("a{b"), Err(ZephyrError::InvalidBraces));
    assert_eq!(
        z.generate_class("unknown-thing"),
        Err(ZephyrError::ValueMissing)
    );
    // both kinds are skipped by the batch generator
    let css = z.generate_classes(&owned(vec!["a{b", "unknown-thing"]));
    assert_eq!(css, "");
}

#[test]
fn empty_inputs_generate_nothing() {
    let z = Zephyr::new();
    assert_eq!(z.generate_classes(&vec![]), "");
    assert_eq!(z.generate_classes(&owned(vec![""])), "");
    assert_eq!(z.generate_classes(&owned(vec!["   \t \n "])), "");
}

#[test]
fn later_table_entries_override_earlier_ones() {
    let mut z = Zephyr::new_without_defaults();
    z.properties.set("m", "margin");
    z.properties.set("m", "padding");
    let css = z.generate_class("m[1rem]").unwrap();
    assert_eq!(css, r#".m\[1rem\]{padding:1rem}"#);
}

#[test]
fn variable_value_skips_lookup() {
    let z = Zephyr::new();
    // `full` is a registered value shorthand, but a variable value is
    // rendered as a custom-property reference without lookup
    let css = z.generate_class("w(full)").unwrap();
    assert_eq!(css, r#".w\(full\){width:var(--full)}"#);
}

#[test]
fn pretty_print_inserts_whitespace() {
    let mut z = Zephyr::new();
    z.pretty_print = true;
    let css = z.generate_class("m[1rem]").unwrap();
    assert_eq!(css, ".m\\[1rem\\] {\n  margin: 1rem\n}\n");
}

#[test]
fn no_value_with_pipe_keeps_modifiers() {
    let z = Zephyr::new();
    let css = z.generate_class("flex|hover").unwrap();
    assert_eq!(css, r#".flex\|hover:hover{display:flex}"#);
}
