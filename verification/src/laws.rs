//! Library-wide laws, each proved from the specifications the public
//! functions are verified against.

use vstd::prelude::*;

verus! {

use crate::class::{
    ClassModel, ValueType, spec_generate, spec_generate_with_media_query, spec_normal_value,
    spec_rendered_value,
};
use crate::media_queries::{
    ReducedMotion, Responsive, spec_motion_queries, spec_responsive_queries, spec_wrap_in_query,
};
use crate::strutil::spec_join;
use crate::table::{assoc_get, assoc_resolve};
use crate::{ZephyrError, ZephyrModel, spec_batch, spec_generate_class};

/// A key that no entry of the table holds is not stored at all.
pub proof fn lemma_unregistered_key_absent<T>(t: Seq<(Seq<char>, T)>, k: Seq<char>)
    requires
        forall|i: int| 0 <= i < t.len() ==> t[i].0 != k,
    ensures
        assoc_get(t, k) is None,
    decreases t.len(),
{
    if t.len() > 0 {
        lemma_unregistered_key_absent(t.drop_last(), k);
    }
}

/// Identity fallback: looking up a token that no entry of the table
/// registers resolves to the raw token itself, unchanged.  This holds of
/// every registry table.
pub proof fn lemma_lookup_identity_fallback(t: Seq<(Seq<char>, Seq<char>)>, k: Seq<char>)
    requires
        forall|i: int| 0 <= i < t.len() ==> t[i].0 != k,
    ensures
        assoc_resolve(t, k) == k,
{
    lemma_unregistered_key_absent(t, k);
}

/// The tokens of `tokens` not in `seen`, first occurrence kept, order
/// preserved.
pub open spec fn spec_dedup(tokens: Seq<Seq<char>>, seen: Set<Seq<char>>) -> Seq<Seq<char>>
    decreases tokens.len(),
{
    if tokens.len() == 0 {
        Seq::empty()
    } else if seen.contains(tokens[0]) {
        spec_dedup(tokens.drop_first(), seen)
    } else {
        seq![tokens[0]] + spec_dedup(tokens.drop_first(), seen.insert(tokens[0]))
    }
}

/// Batch generation from a token list equals batch generation from the
/// same list with duplicates dropped, first occurrences keeping their
/// positions: repeated tokens contribute nothing.
pub proof fn lemma_batch_ignores_duplicates(z: ZephyrModel, tokens: Seq<Seq<char>>)
    ensures
        spec_batch(z, tokens, Set::empty()) == spec_batch(
            z,
            spec_dedup(tokens, Set::empty()),
            Set::empty(),
        ),
{
    lemma_batch_dedup_general(z, tokens, Set::empty());
}

/// Batch generation and deduplication agree from any starting set of seen
/// tokens.
proof fn lemma_batch_dedup_general(z: ZephyrModel, tokens: Seq<Seq<char>>, seen: Set<Seq<char>>)
    ensures
        spec_batch(z, tokens, seen) == spec_batch(z, spec_dedup(tokens, seen), seen),
    decreases tokens.len(),
{
    if tokens.len() == 0 {
    } else if seen.contains(tokens[0]) {
        lemma_batch_dedup_general(z, tokens.drop_first(), seen);
    } else {
        let t0 = tokens[0];
        let seen2 = seen.insert(t0);
        lemma_batch_dedup_general(z, tokens.drop_first(), seen2);
        let d = spec_dedup(tokens.drop_first(), seen2);
        assert((seq![t0] + d)[0] == t0);
        assert((seq![t0] + d).drop_first() =~= d);
    }
}

/// Literal value-kind passthrough: a literal value is rendered exactly as
/// written, with no table lookup and no underscore substitution.
pub proof fn lemma_literal_value_passthrough(z: ZephyrModel, property: Seq<char>, v: Seq<char>)
    ensures
        spec_rendered_value(z, property, v, ValueType::Literal) == v,
{
}

/// Context-aware scoping: a value shorthand that neither the scope of the
/// resolved property nor the global value table registers does not
/// resolve — whatever other scopes register it, the raw value falls
/// through unchanged.
pub proof fn lemma_context_scoped_value(z: ZephyrModel, property: Seq<char>, v: Seq<char>)
    requires
        match assoc_get(z.context_aware_values, property) {
            Some(t) => assoc_get(t, v) is None,
            None => true,
        },
        assoc_get(z.values, v) is None,
    ensures
        spec_normal_value(z, property, v) == v,
{
}

/// Media nesting: a class carrying both a breakpoint spec and a motion
/// spec produces a single `@media` block whose parenthesized conditions
/// are joined with `and`, the breakpoint conditions first and the motion
/// condition after them.
pub proof fn lemma_media_nesting(
    z: ZephyrModel,
    c: ClassModel,
    r: Responsive,
    m: ReducedMotion,
    css: Seq<char>,
)
    requires
        c.modifiers.responsive == Some(r),
        c.modifiers.reduced_motion == Some(m),
        spec_generate(z, c, 1) == Ok::<Seq<char>, ZephyrError>(css),
    ensures
        spec_generate_with_media_query(z, c) == Ok::<Seq<char>, ZephyrError>(
            "@media"@ + spec_join(
                (spec_responsive_queries(r) + spec_motion_queries(m)).map_values(
                    |q: Seq<char>| "("@ + q + ")"@,
                ),
                "and"@,
            ) + "{"@ + css + "}"@,
        ),
{
    let queries = spec_responsive_queries(r) + spec_motion_queries(m);
    assert(spec_responsive_queries(r).len() >= 1);
    assert(spec_motion_queries(m).len() == 1);
    assert(queries.len() >= 2);
}

} // verus!
