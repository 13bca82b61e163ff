//! A structured utility-class record and the generation of its CSS rule:
//! the escaped selector built from the original token text, and the
//! declaration block resolved through the registry.

use vstd::prelude::*;

verus! {

use vstd::string::StrSliceExecFns;
use vstd::string::StringExecFns;
use crate::media_queries::{
    ReducedMotion, Responsive, spec_motion_from, spec_motion_queries, spec_responsive_from,
    spec_responsive_queries, spec_wrap_in_query, wrap_in_query,
};
use crate::modifiers::{Modifiers, ModifiersModel};
use crate::strutil::{
    chars_to_string, escape_chars, join_with, push_chars, spec_escape, spec_join,
    spec_subst_underscores, subst_underscores,
};
use crate::table::{assoc_get, assoc_resolve, spec_special_apply};
use crate::{Zephyr, ZephyrError, ZephyrModel};

/// How the value text of a class is rendered.
#[derive(Clone, Copy, Debug, PartialEq, Eq, Structural)]
pub enum ValueType {
    /// resolved through the value tables, then underscores become spaces
    ///
    /// eg: `m[1rem]`
    Normal,
    /// emitted as written: no table lookup, no substitution
    ///
    /// eg: `border{1px solid black}`
    Literal,
    /// emitted as `var(--value)`: no table lookup, no substitution
    ///
    /// eg: `c(main-color)`
    Variable,
}

/// The mathematical content of a `Class`.
#[verifier::ext_equal]
pub ghost struct ClassModel {
    pub property: Seq<char>,
    pub value: Option<Seq<char>>,
    pub value_type: ValueType,
    pub modifiers: ModifiersModel,
    pub pseudo: Option<Seq<char>>,
    pub original: Seq<char>,
}

/// One parsed utility class.
#[derive(Debug)]
pub struct Class {
    pub property: String,
    pub value: Option<String>,
    pub value_type: ValueType,
    pub modifiers: Modifiers,
    pub pseudo: Option<String>,
    /// the original unparsed token text, which the selector is built from
    /// so that it matches the class attribute as authored
    pub original: String,
}

impl PartialEq for Class {
    fn eq(&self, other: &Class) -> (r: bool) {
        let value_eq = match (&self.value, &other.value) {
            (Option::None, Option::None) => true,
            (Option::Some(a), Option::Some(b)) => crate::strutil::str_eq(a.as_str(), b.as_str()),
            _ => false,
        };
        let pseudo_eq = match (&self.pseudo, &other.pseudo) {
            (Option::None, Option::None) => true,
            (Option::Some(a), Option::Some(b)) => crate::strutil::str_eq(a.as_str(), b.as_str()),
            _ => false,
        };
        crate::strutil::str_eq(self.property.as_str(), other.property.as_str()) && value_eq
            && self.value_type == other.value_type && self.modifiers == other.modifiers
            && pseudo_eq && crate::strutil::str_eq(
            self.original.as_str(),
            other.original.as_str(),
        )
    }
}

impl vstd::std_specs::cmp::PartialEqSpecImpl for Class {
    open spec fn obeys_eq_spec() -> bool {
        true
    }

    open spec fn eq_spec(&self, other: &Class) -> bool {
        self.property@ == other.property@ && self.value.deep_view() == other.value.deep_view()
            && self.value_type == other.value_type && self.modifiers.all.deep_view()
            == other.modifiers.all.deep_view() && self.modifiers.responsive
            == other.modifiers.responsive && self.modifiers.reduced_motion
            == other.modifiers.reduced_motion
            && self.pseudo.deep_view() == other.pseudo.deep_view() && self.original@
            == other.original@
    }
}

impl View for Class {
    type V = ClassModel;

    open spec fn view(&self) -> ClassModel {
        ClassModel {
            property: self.property@,
            value: self.value.deep_view(),
            value_type: self.value_type,
            modifiers: self.modifiers@,
            pseudo: self.pseudo.deep_view(),
            original: self.original@,
        }
    }
}

/// The generic modifier tokens — those naming neither a breakpoint nor a
/// motion preference — each resolved through the pseudo-class table, in
/// source order.
pub open spec fn spec_generic_mods(
    tbl: Seq<(Seq<char>, Seq<char>)>,
    all: Seq<Seq<char>>,
) -> Seq<Seq<char>>
    decreases all.len(),
{
    if all.len() == 0 {
        Seq::empty()
    } else {
        let rest = spec_generic_mods(tbl, all.drop_first());
        if spec_responsive_from(all[0]) is None && spec_motion_from(all[0]) is None {
            seq![assoc_resolve(tbl, all[0])] + rest
        } else {
            rest
        }
    }
}

/// Appending a token appends its resolution (or nothing, for a breakpoint
/// or motion token).
proof fn lemma_generic_mods_push(tbl: Seq<(Seq<char>, Seq<char>)>, all: Seq<Seq<char>>, x: Seq<char>)
    ensures
        spec_generic_mods(tbl, all.push(x)) == spec_generic_mods(tbl, all) + (
        if spec_responsive_from(x) is None && spec_motion_from(x) is None {
            seq![assoc_resolve(tbl, x)]
        } else {
            Seq::<Seq<char>>::empty()
        }),
    decreases all.len(),
{
    if all.len() == 0 {
        assert(all.push(x)[0] == x);
        assert(all.push(x).drop_first() =~= Seq::<Seq<char>>::empty());
        assert(spec_generic_mods(tbl, Seq::<Seq<char>>::empty()) =~= Seq::<Seq<char>>::empty());
        assert(spec_generic_mods(tbl, all.push(x)) =~= spec_generic_mods(tbl, all) + (
        if spec_responsive_from(x) is None && spec_motion_from(x) is None {
            seq![assoc_resolve(tbl, x)]
        } else {
            Seq::<Seq<char>>::empty()
        }));
    } else {
        lemma_generic_mods_push(tbl, all.drop_first(), x);
        assert(all.push(x)[0] == all[0]);
        assert(all.push(x).drop_first() =~= all.drop_first().push(x));
        assert(spec_generic_mods(tbl, all.push(x)) =~= spec_generic_mods(tbl, all) + (
        if spec_responsive_from(x) is None && spec_motion_from(x) is None {
            seq![assoc_resolve(tbl, x)]
        } else {
            Seq::<Seq<char>>::empty()
        }));
    }
}

/// The escaped CSS selector of a class: the original token text, the
/// resolved generic pseudo-classes joined with `:`, the resolved
/// pseudo-element after `::`, every selector-significant character
/// escaped, and a leading `.`.
pub open spec fn spec_selector(z: ZephyrModel, c: ClassModel) -> Seq<char> {
    let mods_part = spec_join(spec_generic_mods(z.modifiers, c.modifiers.all), ":"@);
    let s1 = if mods_part.len() > 0 {
        c.original + ":"@ + mods_part
    } else {
        c.original
    };
    let s2 = match c.pseudo {
        Some(p) => s1 + "::"@ + assoc_resolve(z.pseudos, p),
        None => s1,
    };
    "."@ + spec_escape(s2)
}

/// A single space when pretty-printing, nothing otherwise.
pub open spec fn spec_space(pretty: bool) -> Seq<char> {
    if pretty {
        " "@
    } else {
        Seq::empty()
    }
}

/// A line break when pretty-printing, nothing otherwise.
pub open spec fn spec_nl(pretty: bool) -> Seq<char> {
    if pretty {
        "\n"@
    } else {
        Seq::empty()
    }
}

/// Two spaces per indentation level when pretty-printing, nothing otherwise.
pub open spec fn spec_indent(pretty: bool, level: nat) -> Seq<char>
    decreases level,
{
    if !pretty || level == 0 {
        Seq::empty()
    } else {
        spec_indent(pretty, (level - 1) as nat) + "  "@
    }
}

/// A `Normal` value resolved through the registry: the context-aware table
/// scoped to the resolved property first, then the global value table,
/// then the raw value itself.
pub open spec fn spec_normal_value(z: ZephyrModel, property: Seq<char>, v: Seq<char>) -> Seq<char> {
    let scoped = match assoc_get(z.context_aware_values, property) {
        Some(t) => assoc_get(t, v),
        None => None,
    };
    let found = match scoped {
        Some(x) => Some(x),
        None => assoc_get(z.values, v),
    };
    match found {
        Some(x) => x,
        None => v,
    }
}

/// The rendered value text of a class, by value kind.
pub open spec fn spec_rendered_value(
    z: ZephyrModel,
    property: Seq<char>,
    v: Seq<char>,
    vt: ValueType,
) -> Seq<char> {
    match vt {
        ValueType::Normal => spec_subst_underscores(spec_normal_value(z, property, v)),
        ValueType::Literal => v,
        ValueType::Variable => "var(--"@ + v + ")"@,
    }
}

/// The declaration-block body of a class: a special expansion when the
/// resolved property has a registered template, else one
/// `property:value` pair; for a class without a value, the registered
/// no-value block, or `ValueMissing` when there is none.
pub open spec fn spec_body(z: ZephyrModel, c: ClassModel, property: Seq<char>) -> Result<
    Seq<char>,
    ZephyrError,
> {
    match c.value {
        Some(v) => {
            let val = spec_rendered_value(z, property, v, c.value_type);
            match assoc_get(z.specials, property) {
                Some(parts) => Ok(spec_special_apply(parts, val)),
                None => Ok(property + ":"@ + spec_space(z.pretty_print) + val),
            }
        },
        None => match assoc_get(z.declarations, property) {
            Some(d) => Ok(d),
            None => Err(ZephyrError::ValueMissing),
        },
    }
}

/// The full CSS rule of a class at an indentation level: selector, braces
/// and body, with whitespace only when pretty-printing.
pub open spec fn spec_generate(z: ZephyrModel, c: ClassModel, level: nat) -> Result<
    Seq<char>,
    ZephyrError,
> {
    let property = assoc_resolve(z.properties, c.property);
    let selector = spec_selector(z, c);
    let space = spec_space(z.pretty_print);
    let nl = spec_nl(z.pretty_print);
    let indent = spec_indent(z.pretty_print, level);
    let indent2 = spec_indent(z.pretty_print, level + 1);
    match spec_body(z, c, property) {
        Ok(body) => Ok(
            indent + selector + space + "{"@ + nl + indent2 + body + nl + indent + "}"@ + nl,
        ),
        Err(e) => Err(e),
    }
}

/// The media-query conditions a class carries: the breakpoint conditions
/// first, then the motion condition.
pub open spec fn spec_class_queries(c: ClassModel) -> Seq<Seq<char>> {
    (match c.modifiers.responsive {
        Some(r) => spec_responsive_queries(r),
        None => Seq::empty(),
    }) + (match c.modifiers.reduced_motion {
        Some(m) => spec_motion_queries(m),
        None => Seq::empty(),
    })
}

/// The full CSS output of a class: its rule, wrapped in `@media` when it
/// carries a breakpoint or motion spec.
pub open spec fn spec_generate_with_media_query(z: ZephyrModel, c: ClassModel) -> Result<
    Seq<char>,
    ZephyrError,
> {
    let queries = spec_class_queries(c);
    let level: nat = if queries.len() == 0 {
        0
    } else {
        1
    };
    match spec_generate(z, c, level) {
        Ok(css) => Ok(spec_wrap_in_query(css, queries)),
        Err(e) => Err(e),
    }
}

/// Builds the indentation for `level`.
fn build_indent(pretty: bool, level: usize) -> (r: Vec<char>)
    ensures
        r@ == spec_indent(pretty, level as nat),
{
    let mut r: Vec<char> = Vec::new();
    if !pretty {
        proof {
            assert(r@ =~= spec_indent(pretty, level as nat));
        }
        return r;
    }
    let mut i: usize = 0;
    while i < level
        invariant
            pretty,
            0 <= i <= level,
            r@ == spec_indent(pretty, i as nat),
        decreases level - i,
    {
        push_chars(&mut r, "  ");
        i += 1;
    }
    r
}

impl Class {
    /// Builds the escaped CSS selector for this class.
    pub fn selector(&self, z: &Zephyr) -> (r: String)
        ensures
            r@ == spec_selector(z@, self@),
    {
        let ghost all = self.modifiers@.all;
        let mut mods: Vec<String> = Vec::new();
        let n = self.modifiers.all.len();
        let mut i: usize = 0;
        proof {
            assert(all.take(0int) =~= Seq::<Seq<char>>::empty());
            assert(mods.deep_view() =~= spec_generic_mods(z@.modifiers, all.take(0int)));
        }
        while i < n
            invariant
                n == self.modifiers.all.len(),
                all == self.modifiers@.all,
                0 <= i <= n,
                mods.deep_view() == spec_generic_mods(z@.modifiers, all.take(i as int)),
            decreases n - i,
        {
            let m = &self.modifiers.all[i];
            proof {
                lemma_generic_mods_push(z@.modifiers, all.take(i as int), all[i as int]);
                assert(all.take(i + 1) =~= all.take(i as int).push(all[i as int]));
            }
            if Responsive::from_str(m.as_str()).is_none() && ReducedMotion::from_str(
                m.as_str(),
            ).is_none() {
                mods.push(z.modifiers.resolve(m.as_str()));
                proof {
                    assert(mods.deep_view() =~= spec_generic_mods(z@.modifiers, all.take(i + 1)));
                }
            } else {
                proof {
                    assert(mods.deep_view() =~= spec_generic_mods(z@.modifiers, all.take(i + 1)));
                }
            }
            i += 1;
        }
        proof {
            assert(all.take(n as int) =~= all);
        }
        let mods_part = join_with(&mods, ":");
        let mut s2: Vec<char> = Vec::new();
        push_chars(&mut s2, self.original.as_str());
        if mods_part.len() > 0 {
            push_chars(&mut s2, ":");
            let mut mp = mods_part;
            s2.append(&mut mp);
        }
        match &self.pseudo {
            Some(p) => {
                push_chars(&mut s2, "::");
                let resolved = z.pseudos.resolve(p.as_str());
                push_chars(&mut s2, resolved.as_str());
            },
            None => {},
        }
        let esc = escape_chars(&s2);
        let mut out: Vec<char> = Vec::new();
        push_chars(&mut out, ".");
        let mut e = esc;
        out.append(&mut e);
        proof {
            assert(out@ =~= spec_selector(z@, self@));
        }
        chars_to_string(&out)
    }

    /// Generates the CSS rule for this class at an indentation level,
    /// without any enclosing media query.
    pub fn generate(&self, z: &Zephyr, indent_level: usize) -> (r: Result<String, ZephyrError>)
        requires
            indent_level < usize::MAX,
        ensures
            match r {
                Ok(css) => spec_generate(z@, self@, indent_level as nat) == Ok::<
                    Seq<char>,
                    ZephyrError,
                >(css@),
                Err(e) => spec_generate(z@, self@, indent_level as nat) == Err::<
                    Seq<char>,
                    ZephyrError,
                >(e),
            },
    {
        let property = z.properties.resolve(self.property.as_str());
        let selector = self.selector(z);
        let indent = build_indent(z.pretty_print, indent_level);
        let indent2 = build_indent(z.pretty_print, indent_level + 1);

        let body: String = match &self.value {
            Some(v) => {
                let val: String = match self.value_type {
                    ValueType::Normal => {
                        let resolved = self.normal_value(z, &property, v.as_str());
                        let sub = subst_underscores(resolved.as_str());
                        chars_to_string(&sub)
                    },
                    ValueType::Literal => v.clone(),
                    ValueType::Variable => {
                        let mut b: Vec<char> = Vec::new();
                        push_chars(&mut b, "var(--");
                        push_chars(&mut b, v.as_str());
                        push_chars(&mut b, ")");
                        chars_to_string(&b)
                    },
                };
                match z.specials.get(property.as_str()) {
                    Some(t) => t.apply(val.as_str()),
                    None => {
                        let mut b: Vec<char> = Vec::new();
                        push_chars(&mut b, property.as_str());
                        push_chars(&mut b, ":");
                        if z.pretty_print {
                            push_chars(&mut b, " ");
                        }
                        push_chars(&mut b, val.as_str());
                        chars_to_string(&b)
                    },
                }
            },
            None => {
                match z.declarations.get(property.as_str()) {
                    Some(d) => d.clone(),
                    None => {
                        return Err(ZephyrError::ValueMissing);
                    },
                }
            },
        };

        let mut out: Vec<char> = Vec::new();
        let mut piece = indent;
        out.append(&mut piece);
        push_chars(&mut out, selector.as_str());
        if z.pretty_print {
            push_chars(&mut out, " ");
        }
        push_chars(&mut out, "{");
        if z.pretty_print {
            push_chars(&mut out, "\n");
        }
        let mut piece2 = indent2;
        out.append(&mut piece2);
        push_chars(&mut out, body.as_str());
        if z.pretty_print {
            push_chars(&mut out, "\n");
        }
        let indent3 = build_indent(z.pretty_print, indent_level);
        let mut piece3 = indent3;
        out.append(&mut piece3);
        push_chars(&mut out, "}");
        if z.pretty_print {
            push_chars(&mut out, "\n");
        }
        proof {
            assert(out@ =~= spec_generate(z@, self@, indent_level as nat)->Ok_0);
        }
        Ok(chars_to_string(&out))
    }

    /// Resolves a `Normal` value: the context-aware table scoped to the
    /// resolved property first, then the global value table, then the raw
    /// value itself.
    fn normal_value(&self, z: &Zephyr, property: &String, v: &str) -> (r: String)
        ensures
            r@ == spec_normal_value(z@, property@, v@),
    {
        match z.context_aware_values.get(property.as_str()) {
            Some(t) => match t.get(v) {
                Some(x) => x.clone(),
                None => z.values.resolve(v),
            },
            None => z.values.resolve(v),
        }
    }

    /// Generates the full CSS output for this class, wrapped in the
    /// `@media` block its modifiers call for.
    pub fn generate_with_media_query(&self, z: &Zephyr) -> (r: Result<String, ZephyrError>)
        ensures
            match r {
                Ok(css) => spec_generate_with_media_query(z@, self@) == Ok::<
                    Seq<char>,
                    ZephyrError,
                >(css@),
                Err(e) => spec_generate_with_media_query(z@, self@) == Err::<
                    Seq<char>,
                    ZephyrError,
                >(e),
            },
    {
        let mut queries: Vec<String> = Vec::new();
        match &self.modifiers.responsive {
            Some(r0) => {
                let mut qs = r0.queries();
                queries.append(&mut qs);
            },
            None => {},
        }
        match &self.modifiers.reduced_motion {
            Some(m0) => {
                let mut qs = m0.queries();
                queries.append(&mut qs);
            },
            None => {},
        }
        proof {
            assert(queries.deep_view() =~= spec_class_queries(self@));
        }
        let level: usize = if queries.len() == 0 {
            0
        } else {
            1
        };
        match self.generate(z, level) {
            Ok(css) => Ok(wrap_in_query(css, &queries)),
            Err(e) => Err(e),
        }
    }
}

} // verus!
