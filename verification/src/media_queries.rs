//! Responsive breakpoints and motion-preference handling: parsing the
//! modifier tokens that select a media query, rendering the query
//! conditions, and wrapping a finished rule in `@media`.

use vstd::prelude::*;

verus! {

use vstd::string::StrSliceExecFns;
use vstd::string::StringExecFns;
use crate::strutil::{spec_dec, spec_join, u16_to_dec, push_chars, chars_to_string, str_eq, lemma_join_push};

/// A named viewport-width threshold.
#[derive(Clone, Copy, Debug, PartialEq, Eq, Structural)]
pub enum Breakpoint {
    Sm,
    Md,
    Lg,
    Xl,
    Xxl,
}

/// How a breakpoint bounds the viewport width.
#[derive(Clone, Copy, Debug, PartialEq, Eq, Structural)]
pub enum Range {
    /// at least this breakpoint
    Gte,
    /// strictly below this breakpoint
    Lt,
    /// between this breakpoint and the next one
    Exact,
}

/// A breakpoint together with its comparison range.
#[derive(Clone, Copy, Debug, PartialEq, Eq, Structural)]
pub struct Responsive {
    pub breakpoint: Breakpoint,
    pub range: Range,
}

/// A reduced-motion media preference.
#[derive(Clone, Copy, Debug, PartialEq, Eq, Structural)]
pub enum ReducedMotion {
    MotionReduce,
    MotionSafe,
}

/// The pixel width of each breakpoint.
pub open spec fn spec_width(b: Breakpoint) -> u16 {
    match b {
        Breakpoint::Sm => 640,
        Breakpoint::Md => 768,
        Breakpoint::Lg => 1024,
        Breakpoint::Xl => 1280,
        Breakpoint::Xxl => 1536,
    }
}

/// The next breakpoint up, if one exists.
pub open spec fn spec_next(b: Breakpoint) -> Option<Breakpoint> {
    match b {
        Breakpoint::Sm => Some(Breakpoint::Md),
        Breakpoint::Md => Some(Breakpoint::Lg),
        Breakpoint::Lg => Some(Breakpoint::Xl),
        Breakpoint::Xl => Some(Breakpoint::Xxl),
        Breakpoint::Xxl => None,
    }
}

/// Which breakpoint a bare token names, if any.
pub open spec fn spec_breakpoint_from(s: Seq<char>) -> Option<Breakpoint> {
    if s == "sm"@ {
        Some(Breakpoint::Sm)
    } else if s == "md"@ {
        Some(Breakpoint::Md)
    } else if s == "lg"@ {
        Some(Breakpoint::Lg)
    } else if s == "xl"@ {
        Some(Breakpoint::Xl)
    } else if s == "xxl"@ {
        Some(Breakpoint::Xxl)
    } else {
        None
    }
}

/// Which responsive spec a modifier token names, if any: a leading `<`
/// selects `Lt`, a leading `@` selects `Exact`, a bare breakpoint `Gte`.
pub open spec fn spec_responsive_from(s: Seq<char>) -> Option<Responsive> {
    if s.len() == 0 {
        None
    } else if s[0] == '<' {
        match spec_breakpoint_from(s.drop_first()) {
            Some(b) => Some(Responsive { breakpoint: b, range: Range::Lt }),
            None => None,
        }
    } else if s[0] == '@' {
        match spec_breakpoint_from(s.drop_first()) {
            Some(b) => Some(Responsive { breakpoint: b, range: Range::Exact }),
            None => None,
        }
    } else {
        match spec_breakpoint_from(s) {
            Some(b) => Some(Responsive { breakpoint: b, range: Range::Gte }),
            None => None,
        }
    }
}

/// Which reduced-motion spec a modifier token names, if any.
pub open spec fn spec_motion_from(s: Seq<char>) -> Option<ReducedMotion> {
    if s == "motion-reduce"@ {
        Some(ReducedMotion::MotionReduce)
    } else if s == "motion-safe"@ {
        Some(ReducedMotion::MotionSafe)
    } else {
        None
    }
}

/// The query conditions of a responsive spec: `Gte` gives one `min-width`
/// condition, `Lt` one `max-width` condition a fraction below the
/// breakpoint, `Exact` both bounds (or only the lower one on the last
/// breakpoint, which has no upper neighbour).
pub open spec fn spec_responsive_queries(r: Responsive) -> Seq<Seq<char>> {
    match r.range {
        Range::Gte => seq![spec_min_width(r.breakpoint)],
        Range::Lt => seq![spec_max_width(r.breakpoint)],
        Range::Exact => match spec_next(r.breakpoint) {
            Some(n) => seq![spec_min_width(r.breakpoint), spec_max_width(n)],
            None => seq![spec_min_width(r.breakpoint)],
        },
    }
}

/// `min-width:<w>px` for the breakpoint's width.
pub open spec fn spec_min_width(b: Breakpoint) -> Seq<char> {
    "min-width:"@ + spec_dec(spec_width(b) as nat) + "px"@
}

/// `max-width:<w-1>.9px`, a fraction below the breakpoint's width.
pub open spec fn spec_max_width(b: Breakpoint) -> Seq<char> {
    "max-width:"@ + spec_dec((spec_width(b) - 1) as nat) + ".9px"@
}

/// The query condition of a reduced-motion spec.
pub open spec fn spec_motion_queries(m: ReducedMotion) -> Seq<Seq<char>> {
    match m {
        ReducedMotion::MotionReduce => seq!["prefers-reduced-motion:reduce"@],
        ReducedMotion::MotionSafe => seq!["prefers-reduced-motion:no-preference"@],
    }
}

impl Breakpoint {
    /// The breakpoint named by `s`, if any.
    pub fn from_str(s: &str) -> (r: Option<Breakpoint>)
        ensures
            r == spec_breakpoint_from(s@),
    {
        if str_eq(s, "sm") {
            Some(Breakpoint::Sm)
        } else if str_eq(s, "md") {
            Some(Breakpoint::Md)
        } else if str_eq(s, "lg") {
            Some(Breakpoint::Lg)
        } else if str_eq(s, "xl") {
            Some(Breakpoint::Xl)
        } else if str_eq(s, "xxl") {
            Some(Breakpoint::Xxl)
        } else {
            None
        }
    }

    /// The pixel width of this breakpoint.
    pub fn width(&self) -> (w: u16)
        ensures
            w == spec_width(*self),
    {
        match self {
            Breakpoint::Sm => 640,
            Breakpoint::Md => 768,
            Breakpoint::Lg => 1024,
            Breakpoint::Xl => 1280,
            Breakpoint::Xxl => 1536,
        }
    }

    /// The next breakpoint up, if one exists.
    pub fn next(&self) -> (n: Option<Breakpoint>)
        ensures
            n == spec_next(*self),
    {
        match self {
            Breakpoint::Sm => Some(Breakpoint::Md),
            Breakpoint::Md => Some(Breakpoint::Lg),
            Breakpoint::Lg => Some(Breakpoint::Xl),
            Breakpoint::Xl => Some(Breakpoint::Xxl),
            Breakpoint::Xxl => None,
        }
    }
}

/// Builds `min-width:<w>px` for `b`.
fn min_width_query(b: Breakpoint) -> (r: String)
    ensures
        r@ == spec_min_width(b),
{
    let mut v: Vec<char> = Vec::new();
    push_chars(&mut v, "min-width:");
    let mut d = u16_to_dec(b.width());
    v.append(&mut d);
    push_chars(&mut v, "px");
    chars_to_string(&v)
}

/// Builds `max-width:<w-1>.9px` for `b`.
fn max_width_query(b: Breakpoint) -> (r: String)
    ensures
        r@ == spec_max_width(b),
{
    let mut v: Vec<char> = Vec::new();
    push_chars(&mut v, "max-width:");
    let mut d = u16_to_dec(b.width() - 1);
    v.append(&mut d);
    push_chars(&mut v, ".9px");
    chars_to_string(&v)
}

impl Responsive {
    /// The responsive spec named by a modifier token, if any.
    pub fn from_str(s: &str) -> (r: Option<Responsive>)
        ensures
            r == spec_responsive_from(s@),
    {
        let n = s.unicode_len();
        if n == 0 {
            return None;
        }
        let c0 = s.get_char(0);
        if c0 == '<' {
            let rest = s.substring_char(1, n);
            proof {
                assert(rest@ =~= s@.drop_first());
            }
            match Breakpoint::from_str(rest) {
                Some(b) => Some(Responsive { breakpoint: b, range: Range::Lt }),
                None => None,
            }
        } else if c0 == '@' {
            let rest = s.substring_char(1, n);
            proof {
                assert(rest@ =~= s@.drop_first());
            }
            match Breakpoint::from_str(rest) {
                Some(b) => Some(Responsive { breakpoint: b, range: Range::Exact }),
                None => None,
            }
        } else {
            match Breakpoint::from_str(s) {
                Some(b) => Some(Responsive { breakpoint: b, range: Range::Gte }),
                None => None,
            }
        }
    }

    /// The media-query conditions this spec stands for.
    pub fn queries(&self) -> (qs: Vec<String>)
        ensures
            qs.deep_view() == spec_responsive_queries(*self),
    {
        let mut qs: Vec<String> = Vec::new();
        match self.range {
            Range::Gte => {
                qs.push(min_width_query(self.breakpoint));
            },
            Range::Lt => {
                qs.push(max_width_query(self.breakpoint));
            },
            Range::Exact => {
                match self.breakpoint.next() {
                    Some(n) => {
                        qs.push(min_width_query(self.breakpoint));
                        qs.push(max_width_query(n));
                    },
                    None => {
                        qs.push(min_width_query(self.breakpoint));
                    },
                }
            },
        }
        proof {
            assert(qs.deep_view() =~= spec_responsive_queries(*self));
        }
        qs
    }
}

impl ReducedMotion {
    /// The reduced-motion spec named by a modifier token, if any.
    pub fn from_str(s: &str) -> (r: Option<ReducedMotion>)
        ensures
            r == spec_motion_from(s@),
    {
        if str_eq(s, "motion-reduce") {
            Some(ReducedMotion::MotionReduce)
        } else if str_eq(s, "motion-safe") {
            Some(ReducedMotion::MotionSafe)
        } else {
            None
        }
    }

    /// The media-query condition this preference stands for.
    pub fn queries(&self) -> (qs: Vec<String>)
        ensures
            qs.deep_view() == spec_motion_queries(*self),
    {
        let mut qs: Vec<String> = Vec::new();
        match self {
            ReducedMotion::MotionReduce => {
                qs.push("prefers-reduced-motion:reduce".to_owned());
            },
            ReducedMotion::MotionSafe => {
                qs.push("prefers-reduced-motion:no-preference".to_owned());
            },
        }
        proof {
            assert(qs.deep_view() =~= spec_motion_queries(*self));
        }
        qs
    }
}

/// `css` wrapped in a single `@media` block whose parenthesized conditions
/// are joined with `and`; `css` unchanged when there are no conditions.
pub open spec fn spec_wrap_in_query(css: Seq<char>, queries: Seq<Seq<char>>) -> Seq<char> {
    if queries.len() == 0 {
        css
    } else {
        "@media"@ + spec_join(queries.map_values(|q: Seq<char>| "("@ + q + ")"@), "and"@) + "{"@
            + css + "}"@
    }
}

/// Wraps a finished rule in the `@media` block for `queries`.
pub fn wrap_in_query(css: String, queries: &Vec<String>) -> (r: String)
    ensures
        r@ == spec_wrap_in_query(css@, queries.deep_view()),
{
    if queries.len() == 0 {
        proof {
            assert(queries.deep_view().len() == 0);
        }
        return css;
    }
    let ghost mapped = queries.deep_view().map_values(|q: Seq<char>| "("@ + q + ")"@);
    let mut v: Vec<char> = Vec::new();
    push_chars(&mut v, "@media");
    let mut i: usize = 0;
    while i < queries.len()
        invariant
            0 <= i <= queries.len(),
            mapped == queries.deep_view().map_values(|q: Seq<char>| "("@ + q + ")"@),
            mapped.len() == queries.len(),
            v@ == "@media"@ + spec_join(mapped.take(i as int), "and"@),
        decreases queries.len() - i,
    {
        if i > 0 {
            push_chars(&mut v, "and");
        }
        push_chars(&mut v, "(");
        push_chars(&mut v, queries[i].as_str());
        push_chars(&mut v, ")");
        proof {
            assert(mapped.take(i + 1) =~= mapped.take(i as int).push(mapped[i as int]));
            lemma_join_push(mapped.take(i as int), "and"@, mapped[i as int]);
            assert(mapped[i as int] == "("@ + queries.deep_view()[i as int] + ")"@);
            if i == 0 {
                assert(mapped.take(0int).len() == 0);
                assert(v@ =~= "@media"@ + spec_join(mapped.take(i + 1), "and"@));
            } else {
                assert(v@ =~= "@media"@ + spec_join(mapped.take(i + 1), "and"@));
            }
        }
        i += 1;
    }
    push_chars(&mut v, "{");
    push_chars(&mut v, css.as_str());
    push_chars(&mut v, "}");
    proof {
        assert(mapped.take(queries.len() as int) =~= mapped);
        assert(v@ =~= spec_wrap_in_query(css@, queries.deep_view()));
    }
    chars_to_string(&v)
}

} // verus!
