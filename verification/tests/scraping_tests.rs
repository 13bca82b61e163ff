use zephyr::Zephyr;
use zephyr::scraping::get_classes_regex;

#[test]
fn test_parse_regex() {
    let c = get_classes_regex(
        "<h1 class=\"hey hello\">Hello, <i class=\"hiii\">world!</i></h1>
<h1 class=\"hey hello\">Hello, <i class=\"hiii\">world!</i></h1>",
    );

    assert_eq!(c, vec!["hey hello", "hiii", "hey hello", "hiii",]);
}

#[test]
fn regex_extraction_feeds_generation() {
    let z = Zephyr::new();
    let c = get_classes_regex("<h1 class=\"m[1rem]\">Hello world!</h1>");
    assert_eq!(c, vec!["m[1rem]"]);
    let css = z.generate_classes(&c);
    assert_eq!(css, r#".m\[1rem\]{margin:1rem}"#);
}
