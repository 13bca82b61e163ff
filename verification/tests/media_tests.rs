use zephyr::media_queries::{Breakpoint, Range, ReducedMotion, Responsive, wrap_in_query};

#[test]
fn parse_responsive() {
    let r = Responsive::from_str("<lg");
    assert_eq!(
        r,
        Some(Responsive {
            breakpoint: Breakpoint::Lg,
            range: Range::Lt
        })
    );

    let r = Responsive::from_str("@xl");
    assert_eq!(
        r,
        Some(Responsive {
            breakpoint: Breakpoint::Xl,
            range: Range::Exact
        })
    );

    let r = Responsive::from_str("@sm");
    assert_eq!(
        r,
        Some(Responsive {
            breakpoint: Breakpoint::Sm,
            range: Range::Exact
        })
    );

    let r = Responsive::from_str("xxl");
    assert_eq!(
        r,
        Some(Responsive {
            breakpoint: Breakpoint::Xxl,
            range: Range::Gte
        })
    );
}

#[test]
fn generate_queries() {
    let r = Responsive::from_str("<lg").unwrap().queries();
    assert_eq!(r, &["max-width:1023.9px"]);

    let r = Responsive::from_str("@xl").unwrap().queries();
    assert_eq!(r, &["min-width:1280px", "max-width:1535.9px"]);

    let r = ReducedMotion::MotionReduce.queries();
    assert_eq!(r, &["prefers-reduced-motion:reduce"]);
}

#[test]
fn generate_queries_every_breakpoint() {
    for (token, expected) in [
        ("sm", "min-width:640px"),
        ("md", "min-width:768px"),
        ("lg", "min-width:1024px"),
        ("xl", "min-width:1280px"),
        ("xxl", "min-width:1536px"),
    ] {
        let r = Responsive::from_str(token).unwrap().queries();
        assert_eq!(r, &[expected]);
    }
    // the last breakpoint has no upper neighbour: exactly-between degenerates
    let r = Responsive::from_str("@xxl").unwrap().queries();
    assert_eq!(r, &["min-width:1536px"]);
}

#[test]
fn parse_responsive_rejects_other_tokens() {
    assert_eq!(Responsive::from_str(""), None);
    assert_eq!(Responsive::from_str("hover"), None);
    assert_eq!(Responsive::from_str("<"), None);
    assert_eq!(Responsive::from_str("<xxxl"), None);
    assert_eq!(ReducedMotion::from_str("motion"), None);
    assert_eq!(
        ReducedMotion::from_str("motion-safe"),
        Some(ReducedMotion::MotionSafe)
    );
}

#[test]
fn wrap_in_query_joins_conditions() {
    let css = ".a{b:c}".to_string();
    assert_eq!(wrap_in_query(css.clone(), &vec![]), ".a{b:c}");
    assert_eq!(
        wrap_in_query(css.clone(), &vec!["min-width:640px".to_string()]),
        "@media(min-width:640px){.a{b:c}}"
    );
    assert_eq!(
        wrap_in_query(
            css,
            &vec![
                "min-width:640px".to_string(),
                "prefers-reduced-motion:reduce".to_string()
            ]
        ),
        "@media(min-width:640px)and(prefers-reduced-motion:reduce){.a{b:c}}"
    );
}
