//! The ordered modifier list of a parsed class, with the at-most-one
//! responsive spec and at-most-one reduced-motion spec it carries.  The
//! first token recognized as a breakpoint wins, and likewise for motion.

use vstd::prelude::*;

verus! {

use crate::media_queries::{
    ReducedMotion, Responsive, spec_motion_from, spec_responsive_from,
};

/// The mathematical content of a `Modifiers` value.
#[verifier::ext_equal]
pub ghost struct ModifiersModel {
    pub all: Seq<Seq<char>>,
    pub responsive: Option<Responsive>,
    pub reduced_motion: Option<ReducedMotion>,
}

/// An ordered modifier list plus the responsive and motion specs found in it.
#[derive(Debug)]
pub struct Modifiers {
    pub all: Vec<String>,
    pub responsive: Option<Responsive>,
    pub reduced_motion: Option<ReducedMotion>,
}

impl View for Modifiers {
    type V = ModifiersModel;

    open spec fn view(&self) -> ModifiersModel {
        ModifiersModel {
            all: self.all.deep_view(),
            responsive: self.responsive,
            reduced_motion: self.reduced_motion,
        }
    }
}

/// The responsive spec of the first token that names one, if any.
pub open spec fn spec_first_responsive(all: Seq<Seq<char>>) -> Option<Responsive>
    decreases all.len(),
{
    if all.len() == 0 {
        None
    } else {
        match spec_responsive_from(all[0]) {
            Some(r) => Some(r),
            None => spec_first_responsive(all.drop_first()),
        }
    }
}

/// The reduced-motion spec of the first token that names one, if any.
pub open spec fn spec_first_motion(all: Seq<Seq<char>>) -> Option<ReducedMotion>
    decreases all.len(),
{
    if all.len() == 0 {
        None
    } else {
        match spec_motion_from(all[0]) {
            Some(m) => Some(m),
            None => spec_first_motion(all.drop_first()),
        }
    }
}

/// The modifiers derived from a raw token list.
pub open spec fn spec_modifiers(all: Seq<Seq<char>>) -> ModifiersModel {
    ModifiersModel {
        all,
        responsive: spec_first_responsive(all),
        reduced_motion: spec_first_motion(all),
    }
}

/// A later token cannot displace an earlier responsive match.
proof fn lemma_first_responsive_push(all: Seq<Seq<char>>, x: Seq<char>)
    ensures
        spec_first_responsive(all.push(x)) == match spec_first_responsive(all) {
            Some(r) => Some(r),
            None => spec_responsive_from(x),
        },
    decreases all.len(),
{
    if all.len() == 0 {
        assert(all.push(x)[0] == x);
        assert(all.push(x).drop_first() =~= Seq::<Seq<char>>::empty());
        assert(spec_first_responsive(Seq::<Seq<char>>::empty()) is None);
    } else {
        lemma_first_responsive_push(all.drop_first(), x);
        assert(all.push(x)[0] == all[0]);
        assert(all.push(x).drop_first() =~= all.drop_first().push(x));
    }
}

/// A later token cannot displace an earlier motion match.
proof fn lemma_first_motion_push(all: Seq<Seq<char>>, x: Seq<char>)
    ensures
        spec_first_motion(all.push(x)) == match spec_first_motion(all) {
            Some(m) => Some(m),
            None => spec_motion_from(x),
        },
    decreases all.len(),
{
    if all.len() == 0 {
        assert(all.push(x)[0] == x);
        assert(all.push(x).drop_first() =~= Seq::<Seq<char>>::empty());
        assert(spec_first_motion(Seq::<Seq<char>>::empty()) is None);
    } else {
        lemma_first_motion_push(all.drop_first(), x);
        assert(all.push(x)[0] == all[0]);
        assert(all.push(x).drop_first() =~= all.drop_first().push(x));
    }
}

impl PartialEq for Modifiers {
    fn eq(&self, other: &Modifiers) -> (r: bool) {
        let resp_eq = match (self.responsive, other.responsive) {
            (Option::None, Option::None) => true,
            (Option::Some(a), Option::Some(b)) => a == b,
            _ => false,
        };
        let motion_eq = match (self.reduced_motion, other.reduced_motion) {
            (Option::None, Option::None) => true,
            (Option::Some(a), Option::Some(b)) => a == b,
            _ => false,
        };
        crate::strutil::vec_str_eq(&self.all, &other.all) && resp_eq && motion_eq
    }
}

impl vstd::std_specs::cmp::PartialEqSpecImpl for Modifiers {
    open spec fn obeys_eq_spec() -> bool {
        true
    }

    open spec fn eq_spec(&self, other: &Modifiers) -> bool {
        self.all.deep_view() == other.all.deep_view() && self.responsive == other.responsive
            && self.reduced_motion == other.reduced_motion
    }
}

impl Modifiers {
    /// Scans the token list for the first breakpoint token and the first
    /// reduced-motion token and records both alongside the full list.
    pub fn new(all: Vec<String>) -> (m: Modifiers)
        ensures
            m@ == spec_modifiers(all.deep_view()),
    {
        let mut responsive: Option<Responsive> = None;
        let mut reduced_motion: Option<ReducedMotion> = None;
        let n = all.len();
        let mut i: usize = 0;
        proof {
            assert(all.deep_view().take(0int) =~= Seq::<Seq<char>>::empty());
        }
        while i < n
            invariant
                n == all.len(),
                0 <= i <= n,
                responsive == spec_first_responsive(all.deep_view().take(i as int)),
                reduced_motion == spec_first_motion(all.deep_view().take(i as int)),
            decreases n - i,
        {
            proof {
                lemma_first_responsive_push(
                    all.deep_view().take(i as int),
                    all.deep_view()[i as int],
                );
                lemma_first_motion_push(all.deep_view().take(i as int), all.deep_view()[i as int]);
                assert(all.deep_view().take(i + 1) =~= all.deep_view().take(i as int).push(
                    all.deep_view()[i as int],
                ));
            }
            if responsive.is_none() {
                responsive = Responsive::from_str(all[i].as_str());
            }
            if reduced_motion.is_none() {
                reduced_motion = ReducedMotion::from_str(all[i].as_str());
            }
            i += 1;
        }
        proof {
            assert(all.deep_view().take(n as int) =~= all.deep_view());
        }
        Modifiers { all, responsive, reduced_motion }
    }
}

} // verus!

