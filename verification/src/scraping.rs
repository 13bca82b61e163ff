//! Extracting class-name strings from markup text with a regular
//! expression.  A regex scan finds more false positives than a full
//! document parse, but also works on templated sources that a parser
//! cannot read; a stray extracted token at worst fails generation and is
//! skipped by the batch generator.

use vstd::prelude::*;

verus! {

/// The class-attribute values that the extraction pattern finds in
/// `html`, in order of appearance: a function of the text alone.
pub uninterp spec fn regex_class_captures(html: Seq<char>) -> Seq<Seq<char>>;

/// Gets all class attribute values from markup text, using a regular
/// expression over `class=` / `className=` attributes.
///
/// Relies on `regex::Regex::captures_iter` with the fixed class-attribute
/// pattern: it yields each match's first capture group in order of
/// appearance, deterministically from the text alone.  The pattern is a
/// fixed valid expression, so compiling it cannot fail.
#[verifier::external_body]
pub fn get_classes_regex(html: &str) -> (r: Vec<String>)
    ensures
        r.deep_view() == regex_class_captures(html@),
{
    let re = regex::Regex::new(r#"(?:class|className)=(?:["']\W+\s*(?:\w+)\()?["']([^'"]+)['"]"#)
        .unwrap();
    let mut classes = Vec::new();
    for capture in re.captures_iter(html) {
        if let Some(group) = capture.get(1) {
            classes.push(group.as_str().to_string());
        }
    }
    classes
}

} // verus!
