//! A verified generator that turns compact utility-class tokens
//! (for example `m[1rem]hover,focus$placeholder`) into CSS rules: a
//! tokenizer for the micro-syntax, shorthand lookup tables with identity
//! fallback, CSS-selector escaping, declaration generation with literal and
//! variable value kinds and multi-declaration specials, and responsive and
//! reduced-motion media-query wrapping.
#![allow(unused_imports)]

use vstd::prelude::*;

pub mod class;
pub mod defaults;
pub mod laws;
pub mod media_queries;
pub mod modifiers;
pub mod parse;
pub mod scraping;
pub mod strutil;
pub mod table;

verus! {

use crate::table::{ContextTable, SpecialTable, Table};

/// Why a single class failed to produce CSS.
#[derive(Clone, Copy, Debug, PartialEq, Eq, Structural)]
pub enum ZephyrError {
    /// the literal-value delimiters are malformed: only one of `{` / `}`
    /// present, or the closing one before the opening one
    InvalidBraces,
    /// the property has neither a value nor a registered no-value
    /// declaration block
    ValueMissing,
}

/// The mathematical content of a `Zephyr` registry.
#[verifier::ext_equal]
pub ghost struct ZephyrModel {
    pub declarations: Seq<(Seq<char>, Seq<char>)>,
    pub specials: Seq<(Seq<char>, Seq<Seq<char>>)>,
    pub properties: Seq<(Seq<char>, Seq<char>)>,
    pub values: Seq<(Seq<char>, Seq<char>)>,
    pub context_aware_values: Seq<(Seq<char>, Seq<(Seq<char>, Seq<char>)>)>,
    pub modifiers: Seq<(Seq<char>, Seq<char>)>,
    pub pseudos: Seq<(Seq<char>, Seq<char>)>,
    pub pretty_print: bool,
}

/// The lookup registry that drives css generation.  Every table falls back
/// to the raw token when a key is absent, and extending a table overrides
/// earlier entries for the same key (last write wins).
#[derive(Debug)]
pub struct Zephyr {
    /// declaration blocks for no-value classes
    pub declarations: Table,
    /// multi-declaration templates keyed by resolved property
    pub specials: SpecialTable,
    /// property-name shorthands
    pub properties: Table,
    /// value shorthands
    pub values: Table,
    /// value shorthands scoped to one resolved property each
    pub context_aware_values: ContextTable,
    /// pseudo-class shorthands
    pub modifiers: Table,
    /// pseudo-element shorthands
    pub pseudos: Table,
    /// insert indentation and line breaks between selector, braces and
    /// declarations
    pub pretty_print: bool,
}

impl View for Zephyr {
    type V = ZephyrModel;

    open spec fn view(&self) -> ZephyrModel {
        ZephyrModel {
            declarations: self.declarations@,
            specials: self.specials@,
            properties: self.properties@,
            values: self.values@,
            context_aware_values: self.context_aware_values@,
            modifiers: self.modifiers@,
            pseudos: self.pseudos@,
            pretty_print: self.pretty_print,
        }
    }
}

/// The CSS output of one raw token, or the error that stops it: the token
/// parsed and its rule generated under the media query it carries.
pub open spec fn spec_generate_class(z: ZephyrModel, class: Seq<char>) -> Result<
    Seq<char>,
    ZephyrError,
> {
    match crate::parse::spec_parse(class) {
        Ok(c) => crate::class::spec_generate_with_media_query(z, c),
        Err(e) => Err(e),
    }
}

/// Every whitespace-separated token of every input fragment, in order.
pub open spec fn spec_all_tokens(inputs: Seq<Seq<char>>) -> Seq<Seq<char>>
    decreases inputs.len(),
{
    if inputs.len() == 0 {
        Seq::empty()
    } else {
        crate::strutil::spec_split_ws(inputs[0]) + spec_all_tokens(inputs.drop_first())
    }
}

/// The concatenated CSS of the tokens not yet seen, first occurrence
/// winning; a token that fails to generate contributes nothing.
pub open spec fn spec_batch(z: ZephyrModel, tokens: Seq<Seq<char>>, seen: Set<Seq<char>>) -> Seq<
    char,
>
    decreases tokens.len(),
{
    if tokens.len() == 0 {
        Seq::empty()
    } else if seen.contains(tokens[0]) {
        spec_batch(z, tokens.drop_first(), seen)
    } else {
        let rest = spec_batch(z, tokens.drop_first(), seen.insert(tokens[0]));
        match spec_generate_class(z, tokens[0]) {
            Ok(css) => css + rest,
            Err(_) => rest,
        }
    }
}

/// The batch output: the unique tokens of the inputs in first-seen order,
/// each generated, failures skipped, results concatenated.
pub open spec fn spec_generate_classes(z: ZephyrModel, inputs: Seq<Seq<char>>) -> Seq<char> {
    spec_batch(z, spec_all_tokens(inputs), Set::empty())
}

/// One more fragment contributes its own tokens at the end.
proof fn lemma_all_tokens_push(inputs: Seq<Seq<char>>, x: Seq<char>)
    ensures
        spec_all_tokens(inputs.push(x)) == spec_all_tokens(inputs) + crate::strutil::spec_split_ws(
            x,
        ),
    decreases inputs.len(),
{
    if inputs.len() == 0 {
        assert(inputs.push(x)[0] == x);
        assert(inputs.push(x).drop_first() =~= Seq::<Seq<char>>::empty());
        assert(spec_all_tokens(Seq::<Seq<char>>::empty()) =~= Seq::<Seq<char>>::empty());
        assert(spec_all_tokens(inputs.push(x)) =~= spec_all_tokens(inputs)
            + crate::strutil::spec_split_ws(x));
    } else {
        lemma_all_tokens_push(inputs.drop_first(), x);
        assert(inputs.push(x)[0] == inputs[0]);
        assert(inputs.push(x).drop_first() =~= inputs.drop_first().push(x));
        assert(spec_all_tokens(inputs.push(x)) =~= spec_all_tokens(inputs)
            + crate::strutil::spec_split_ws(x));
    }
}

impl Zephyr {
    /// A registry with every table empty.
    pub fn new_without_defaults() -> (z: Zephyr)
        ensures
            z@.declarations.len() == 0,
            z@.specials.len() == 0,
            z@.properties.len() == 0,
            z@.values.len() == 0,
            z@.context_aware_values.len() == 0,
            z@.modifiers.len() == 0,
            z@.pseudos.len() == 0,
            !z@.pretty_print,
    {
        Zephyr {
            declarations: Table::new(),
            specials: SpecialTable::new(),
            properties: Table::new(),
            values: Table::new(),
            context_aware_values: ContextTable::new(),
            modifiers: Table::new(),
            pseudos: Table::new(),
            pretty_print: false,
        }
    }

    /// A registry holding the default rule set: the default shorthand
    /// tables, and a `color:<name>` declaration for every CSS named color.
    pub fn new() -> (z: Zephyr)
        ensures
            z@.declarations == crate::defaults::spec_default_declarations()
                + crate::defaults::spec_color_declarations(),
            z@.specials == crate::defaults::spec_default_specials(),
            z@.properties == crate::defaults::spec_default_properties(),
            z@.values == crate::defaults::spec_default_values(),
            z@.context_aware_values == crate::defaults::spec_default_context_aware_values(),
            z@.modifiers == crate::defaults::spec_default_modifiers(),
            z@.pseudos == crate::defaults::spec_default_pseudos(),
            !z@.pretty_print,
    {
        let mut declarations = crate::defaults::default_declarations();
        crate::defaults::add_color_declarations(&mut declarations);
        Zephyr {
            declarations,
            specials: crate::defaults::default_specials(),
            properties: crate::defaults::default_properties(),
            values: crate::defaults::default_values(),
            context_aware_values: crate::defaults::default_context_aware_values(),
            modifiers: crate::defaults::default_modifiers(),
            pseudos: crate::defaults::default_pseudos(),
            pretty_print: false,
        }
    }

    /// Extends the no-value declarations with every CSS named color, so a
    /// bare color token such as `white` generates `color:white`.  Adding
    /// them again is harmless: the later entries win with the same values.
    pub fn with_css_colors(self) -> (z: Zephyr)
        ensures
            z@.declarations == self@.declarations + crate::defaults::spec_color_declarations(),
            z@.specials == self@.specials,
            z@.properties == self@.properties,
            z@.values == self@.values,
            z@.context_aware_values == self@.context_aware_values,
            z@.modifiers == self@.modifiers,
            z@.pseudos == self@.pseudos,
            z@.pretty_print == self@.pretty_print,
    {
        let mut z = self;
        crate::defaults::add_color_declarations(&mut z.declarations);
        z
    }

    /// Generates the CSS for one raw class token, surfacing the error when
    /// parsing or generation fails.
    pub fn generate_class(&self, class: &str) -> (r: Result<String, ZephyrError>)
        ensures
            match r {
                Ok(css) => spec_generate_class(self@, class@) == Ok::<Seq<char>, ZephyrError>(
                    css@,
                ),
                Err(e) => spec_generate_class(self@, class@) == Err::<Seq<char>, ZephyrError>(e),
            },
    {
        match crate::parse::parse_class(class) {
            Ok(c) => c.generate_with_media_query(self),
            Err(e) => Err(e),
        }
    }

    /// Generates the concatenated CSS of every class token in the input
    /// fragments: fragments are split on ASCII whitespace, duplicate tokens
    /// are dropped keeping the first occurrence's position, and a token
    /// that fails to parse or generate is skipped without stopping the
    /// batch.
    pub fn generate_classes(&self, classes: &Vec<String>) -> (r: String)
        ensures
            r@ == spec_generate_classes(self@, classes.deep_view()),
    {
        let mut tokens: Vec<String> = Vec::new();
        let n = classes.len();
        let mut i: usize = 0;
        proof {
            assert(classes.deep_view().take(0int) =~= Seq::<Seq<char>>::empty());
            assert(tokens.deep_view() =~= spec_all_tokens(classes.deep_view().take(0int)));
        }
        while i < n
            invariant
                n == classes.len(),
                0 <= i <= n,
                tokens.deep_view() == spec_all_tokens(classes.deep_view().take(i as int)),
            decreases n - i,
        {
            let mut ts = crate::strutil::split_ws(classes[i].as_str());
            proof {
                lemma_all_tokens_push(
                    classes.deep_view().take(i as int),
                    classes.deep_view()[i as int],
                );
                assert(classes.deep_view().take(i + 1) =~= classes.deep_view().take(
                    i as int,
                ).push(classes.deep_view()[i as int]));
            }
            tokens.append(&mut ts);
            proof {
                assert(tokens.deep_view() =~= spec_all_tokens(classes.deep_view().take(i + 1)));
            }
            i += 1;
        }
        proof {
            assert(classes.deep_view().take(n as int) =~= classes.deep_view());
        }
        let ghost all_toks = tokens.deep_view();

        let mut seen: Vec<String> = Vec::new();
        let ghost mut seen_set = Set::<Seq<char>>::empty();
        let mut out: Vec<char> = Vec::new();
        let m = tokens.len();
        let mut k: usize = 0;
        proof {
            assert(all_toks.skip(0int) =~= all_toks);
        }
        while k < m
            invariant
                m == tokens.len(),
                0 <= k <= m,
                all_toks == tokens.deep_view(),
                spec_batch(self@, all_toks, Set::empty()) == out@ + spec_batch(
                    self@,
                    all_toks.skip(k as int),
                    seen_set,
                ),
                forall|s: Seq<char>| #[trigger]
                    seen_set.contains(s) <==> exists|j: int|
                        0 <= j < seen@.len() && seen@[j]@ == s,
            decreases m - k,
        {
            let t = &tokens[k];
            proof {
                assert(all_toks.skip(k as int)[0] == all_toks[k as int]);
                assert(all_toks.skip(k as int).drop_first() =~= all_toks.skip(k + 1));
            }
            if !crate::strutil::vec_contains_str(&seen, t.as_str()) {
                proof {
                    assert(!seen_set.contains(t@));
                }
                let ghost prev = seen@;
                seen.push(t.clone());
                proof {
                    let oldset = seen_set;
                    seen_set = seen_set.insert(t@);
                    assert(seen@ == prev.push(seen@.last()));
                    assert(seen@.last()@ == t@);
                    assert forall|s: Seq<char>| #[trigger]
                        seen_set.contains(s) <==> exists|j: int|
                            0 <= j < seen@.len() && seen@[j]@ == s by {
                        if seen_set.contains(s) {
                            if s == t@ {
                                assert(seen@[seen@.len() - 1]@ == s);
                            } else {
                                assert(oldset.contains(s));
                                let j = choose|j: int| 0 <= j < prev.len() && prev[j]@ == s;
                                assert(seen@[j]@ == s);
                            }
                        }
                        if exists|j: int| 0 <= j < seen@.len() && seen@[j]@ == s {
                            let j = choose|j: int| 0 <= j < seen@.len() && seen@[j]@ == s;
                            if j < seen@.len() - 1 {
                                assert(prev[j]@ == s);
                                assert(oldset.contains(s));
                            } else {
                                assert(s == t@);
                            }
                        }
                    }
                }
                match self.generate_class(t.as_str()) {
                    Ok(css) => {
                        crate::strutil::push_chars(&mut out, css.as_str());
                        proof {
                            assert(out@ + spec_batch(self@, all_toks.skip(k + 1), seen_set)
                                =~= spec_batch(self@, all_toks, Set::empty()));
                        }
                    },
                    Err(_) => {
                        proof {
                            assert(out@ + spec_batch(self@, all_toks.skip(k + 1), seen_set)
                                =~= spec_batch(self@, all_toks, Set::empty()));
                        }
                    },
                }
            } else {
                proof {
                    assert(seen_set.contains(t@));
                }
            }
            k += 1;
        }
        proof {
            assert(all_toks.skip(m as int) =~= Seq::<Seq<char>>::empty());
            assert(spec_batch(self@, Seq::<Seq<char>>::empty(), seen_set) =~= Seq::<char>::empty());
            assert(out@ =~= spec_generate_classes(self@, classes.deep_view()));
        }
        crate::strutil::chars_to_string(&out)
    }
}

} // verus!
