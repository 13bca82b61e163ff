use zephyr::Zephyr;
use zephyr::class::{Class, ValueType};
use zephyr::modifiers::Modifiers;

fn owned(v: Vec<&str>) -> Vec<String> {
    v.into_iter().map(|s| s.to_string()).collect()
}

#[test]
fn tests_generate_margin_works() {
    let z = Zephyr::new();

    let class = Class {
        property: "m".to_string(),
        value: Some("1rem".to_string()),
        modifiers: Modifiers::new(vec![]),
        pseudo: None,
        original: "m[1rem]".to_string(),
        value_type: ValueType::Normal,
    };
    let css = class.generate(&z, 0).unwrap();
    assert_eq!(css, r#".m\[1rem\]{margin:1rem}"#);

    let class = Class {
        property: "m".to_string(),
        value: Some("1rem".to_string()),
        modifiers: Modifiers::new(owned(vec!["focus"])),
        pseudo: None,
        original: "m[1rem]focus".to_string(),
        value_type: ValueType::Normal,
    };
    let css = class.generate(&z, 0).unwrap();
    assert_eq!(css, r#".m\[1rem\]focus:focus{margin:1rem}"#);

    let class = Class {
        property: "m".to_string(),
        value: Some("1rem".to_string()),
        modifiers: Modifiers::new(owned(vec!["focus", "hover", "odd"])),
        pseudo: None,
        original: "m[1rem]focus,hover,odd".to_string(),
        value_type: ValueType::Normal,
    };
    let css = class.generate(&z, 0).unwrap();
    assert_eq!(
        css,
        r#".m\[1rem\]focus,hover,odd:focus:hover:nth-child\(odd\){margin:1rem}"#
    );
}

#[test]
fn tests_generate_classes_works() {
    let z = Zephyr::new();

    let classes = z.generate_classes(&owned(vec!["flex-row"]));
    assert_eq!(classes, r#".flex-row{display:flex;flex-direction:row}"#);

    let classes = z.generate_classes(&owned(vec!["m[3rem]hover,focus$placeholder"]));
    assert_eq!(
        classes,
        r#".m\[3rem\]hover,focus\$placeholder:hover:focus::placeholder{margin:3rem}"#
    );

    let classes = z.generate_classes(&owned(vec!["flex|hover,focus$placeholder"]));
    assert_eq!(
        classes,
        r#".flex\|hover,focus\$placeholder:hover:focus::placeholder{display:flex}"#
    );

    let classes = z.generate_classes(&owned(vec!["mr[0.5rem]"]));
    assert_eq!(classes, r#".mr\[0\.5rem\]{margin-right:0.5rem}"#);
}

#[test]
fn tests_generate_multiple_works() {
    let z = Zephyr::new();

    let classes_joined = z.generate_classes(&owned(vec!["flex-row mt[1rem]"]));
    let classes_separate = z.generate_classes(&owned(vec!["flex-row", "mt[1rem]"]));
    assert_eq!(
        classes_joined,
        r#".flex-row{display:flex;flex-direction:row}.mt\[1rem\]{margin-top:1rem}"#
    );
    assert_eq!(classes_separate, classes_joined);
}

#[test]
fn tests_generate_specials_works() {
    let z = Zephyr::new();

    let classes = z.generate_classes(&owned(vec!["mx[1rem]"]));
    assert_eq!(
        classes,
        r#".mx\[1rem\]{margin-left:1rem;margin-right:1rem}"#
    );
}

#[test]
fn tests_generate_with_spaces_works() {
    let z = Zephyr::new();

    let classes = z.generate_classes(&owned(vec!["border[1px_solid_black]"]));
    assert_eq!(
        classes,
        r#".border\[1px_solid_black\]{border:1px solid black}"#
    );
}

#[test]
fn tests_generate_literals_works() {
    let z = Zephyr::new();

    // the curly brackets indicate that the value should not go through replacements
    let classes = z.generate_classes(&owned(vec!["border{1px_solid_black}", "w{full}"]));
    assert_eq!(
        classes,
        r#".border\{1px_solid_black\}{border:1px_solid_black}.w\{full\}{width:full}"#
    );
}

#[test]
fn tests_generate_with_media_query() {
    let z = Zephyr::new();

    let classes = z.generate_classes(&owned(vec!["m[1rem]sm"]));
    assert_eq!(
        classes,
        r#"@media(min-width:640px){.m\[1rem\]sm{margin:1rem}}"#
    );

    let classes = z.generate_classes(&owned(vec!["m[1rem]<md"]));
    assert_eq!(
        classes,
        r#"@media(max-width:767.9px){.m\[1rem\]\<md{margin:1rem}}"#
    );

    let classes = z.generate_classes(&owned(vec!["m[1rem]motion-reduce"]));
    assert_eq!(
        classes,
        r#"@media(prefers-reduced-motion:reduce){.m\[1rem\]motion-reduce{margin:1rem}}"#
    );

    let classes = z.generate_classes(&owned(vec!["m[1rem]@xl,motion-reduce"]));
    assert_eq!(
        classes,
        r#"@media(min-width:1280px)and(max-width:1535.9px)and(prefers-reduced-motion:reduce){.m\[1rem\]\@xl,motion-reduce{margin:1rem}}"#
    );
}

#[test]
fn tests_generate_variable() {
    let z = Zephyr::new();

    // the parens indicate that it should be replaced by `var(--...)`
    let classes = z.generate_classes(&owned(vec!["m(my-margin)"]));
    assert_eq!(classes, r#".m\(my-margin\){margin:var(--my-margin)}"#);
}

#[test]
fn tests_generate_css_colors() {
    let z = Zephyr::new().with_css_colors();

    let classes = z.generate_classes(&owned(vec!["white blanchedalmond"]));
    assert_eq!(
        classes,
        r#".white{color:white}.blanchedalmond{color:blanchedalmond}"#
    );
}

#[test]
fn lib_generate_css_colors() {
    let z = Zephyr::new();

    let classes = z.generate_classes(&owned(vec!["white blanchedalmond"]));
    assert_eq!(
        classes,
        r#".white{color:white}.blanchedalmond{color:blanchedalmond}"#
    );
}

#[test]
fn generate_context_aware_value() {
    let z = Zephyr::new();

    let classes = z.generate_classes(&owned(vec!["tt[u]"]));
    assert_eq!(classes, r#".tt\[u\]{text-transform:uppercase}"#);
}
