//! The tokenizer: splits one raw utility-class token into a structured
//! `Class` record.  An unescaped `$` splits off the pseudo-element suffix;
//! before it, the first of `|` (no value), `{...}` (literal value),
//! `(...)` (variable value) and `[...]` (normal value) that matches wins,
//! and a closing delimiter before its opener makes that pairing absent,
//! falling through to the next one.

use vstd::prelude::*;

verus! {

use vstd::string::StrSliceExecFns;
use crate::class::{Class, ClassModel, ValueType};
use crate::modifiers::{Modifiers, spec_modifiers};
use crate::strutil::{find_char, lemma_spec_find, spec_find, spec_split, split_on_char, substring};
use crate::ZephyrError;

/// The modifier tokens after the delimiter that closed the property or
/// value: the comma-split remainder, or nothing when the delimiter ends
/// the token.
pub open spec fn spec_mods_after(cls: Seq<char>, end: int) -> Seq<Seq<char>> {
    if end + 1 == cls.len() {
        Seq::empty()
    } else {
        spec_split(cls.skip(end + 1), ',')
    }
}

/// The record of a token whose value sits between delimiters at `s` and `e`.
pub open spec fn spec_valued_model(
    cls: Seq<char>,
    pseudo: Option<Seq<char>>,
    original: Seq<char>,
    s: int,
    e: int,
    vt: ValueType,
) -> ClassModel {
    ClassModel {
        property: cls.take(s),
        value: Some(cls.subrange(s + 1, e)),
        value_type: vt,
        modifiers: spec_modifiers(spec_mods_after(cls, e)),
        pseudo,
        original,
    }
}

/// The record of a token parsed from `original`, or the structural error
/// it raises.
pub open spec fn spec_parse(original: Seq<char>) -> Result<ClassModel, ZephyrError> {
    let cls = match spec_find(original, '$') {
        None => original,
        Some(p) => original.take(p),
    };
    let pseudo = match spec_find(original, '$') {
        None => None,
        Some(p) => Some(original.skip(p + 1)),
    };
    if spec_find(cls, '|') is Some {
        let p = spec_find(cls, '|')->0;
        Ok(
            ClassModel {
                property: cls.take(p),
                value: None,
                value_type: ValueType::Normal,
                modifiers: spec_modifiers(spec_mods_after(cls, p)),
                pseudo,
                original,
            },
        )
    } else if spec_find(cls, '{') is Some && spec_find(cls, '}') is Some && spec_find(cls, '{')->0
        <= spec_find(cls, '}')->0 {
        Ok(
            spec_valued_model(
                cls,
                pseudo,
                original,
                spec_find(cls, '{')->0,
                spec_find(cls, '}')->0,
                ValueType::Literal,
            ),
        )
    } else if spec_find(cls, '{') is Some || spec_find(cls, '}') is Some {
        Err(ZephyrError::InvalidBraces)
    } else if spec_find(cls, '(') is Some && spec_find(cls, ')') is Some && spec_find(cls, '(')->0
        <= spec_find(cls, ')')->0 {
        Ok(
            spec_valued_model(
                cls,
                pseudo,
                original,
                spec_find(cls, '(')->0,
                spec_find(cls, ')')->0,
                ValueType::Variable,
            ),
        )
    } else if spec_find(cls, '[') is Some && spec_find(cls, ']') is Some && spec_find(cls, '[')->0
        <= spec_find(cls, ']')->0 {
        Ok(
            spec_valued_model(
                cls,
                pseudo,
                original,
                spec_find(cls, '[')->0,
                spec_find(cls, ']')->0,
                ValueType::Normal,
            ),
        )
    } else {
        Ok(
            ClassModel {
                property: cls,
                value: None,
                value_type: ValueType::Normal,
                modifiers: spec_modifiers(Seq::empty()),
                pseudo,
                original,
            },
        )
    }
}

/// The comma-split modifier tokens after position `end` of `cls`.
fn mods_after(cls: &str, end: usize) -> (v: Vec<String>)
    requires
        end < cls@.len(),
    ensures
        v.deep_view() == spec_mods_after(cls@, end as int),
{
    let n = cls.unicode_len();
    if end + 1 == n {
        let v: Vec<String> = Vec::new();
        proof {
            assert(v.deep_view() =~= Seq::<Seq<char>>::empty());
        }
        v
    } else {
        let rest = cls.substring_char(end + 1, n);
        proof {
            assert(rest@ =~= cls@.skip(end + 1));
        }
        split_on_char(rest, ',')
    }
}

/// Builds the record of a token whose value sits between delimiters at
/// `s` and `e` of `cls`.
fn build_valued(
    cls: &str,
    pseudo: Option<String>,
    original: &str,
    s: usize,
    e: usize,
    vt: ValueType,
) -> (c: Class)
    requires
        s < e < cls@.len(),
    ensures
        c@ == spec_valued_model(cls@, pseudo.deep_view(), original@, s as int, e as int, vt),
{
    let property = substring(cls, 0, s);
    let value = substring(cls, s + 1, e);
    let mods = mods_after(cls, e);
    let modifiers = Modifiers::new(mods);
    let c = Class {
        property,
        value: Some(value),
        value_type: vt,
        modifiers,
        pseudo,
        original: original.to_owned(),
    };
    proof {
        assert(cls@.take(s as int) =~= cls@.subrange(0, s as int));
        assert(c@ =~= spec_valued_model(
            cls@,
            pseudo.deep_view(),
            original@,
            s as int,
            e as int,
            vt,
        ));
    }
    c
}

/// Parses one raw utility-class token into a structured record, or
/// reports the structural error it raises.  Only malformed literal-value
/// braces are an error; every other delimiter mismatch falls through, down
/// to a bare no-value property.
pub fn parse_class(original: &str) -> (r: Result<Class, ZephyrError>)
    ensures
        match r {
            Ok(c) => spec_parse(original@) == Ok::<ClassModel, ZephyrError>(c@),
            Err(e) => spec_parse(original@) == Err::<ClassModel, ZephyrError>(e),
        },
{
    let n = original.unicode_len();
    let (cls, pseudo): (&str, Option<String>) = match find_char(original, '$') {
        Some(p) => {
            proof {
                lemma_spec_find(original@, '$');
            }
            let c = original.substring_char(0, p);
            let ps = substring(original, p + 1, n);
            proof {
                assert(c@ =~= original@.take(p as int));
                assert(ps@ =~= original@.skip(p + 1));
            }
            (c, Some(ps))
        },
        None => (original, None),
    };
    let cn = cls.unicode_len();

    if let Some(p) = find_char(cls, '|') {
        proof {
            lemma_spec_find(cls@, '|');
        }
        let mods = mods_after(cls, p);
        let modifiers = Modifiers::new(mods);
        let c = Class {
            property: substring(cls, 0, p),
            value: None,
            value_type: ValueType::Normal,
            modifiers,
            pseudo,
            original: original.to_owned(),
        };
        proof {
            assert(cls@.take(p as int) =~= cls@.subrange(0, p as int));
            assert(c@ =~= spec_parse(original@)->Ok_0);
        }
        return Ok(c);
    }

    match (find_char(cls, '{'), find_char(cls, '}')) {
        (Some(s), Some(e)) if s <= e => {
            proof {
                lemma_spec_find(cls@, '{');
                lemma_spec_find(cls@, '}');
                assert(cls@[s as int] == '{');
                assert(cls@[e as int] == '}');
            }
            let c = build_valued(cls, pseudo, original, s, e, ValueType::Literal);
            proof {
                assert(c@ =~= spec_parse(original@)->Ok_0);
            }
            return Ok(c);
        },
        (None, None) => {},
        _ => {
            return Err(ZephyrError::InvalidBraces);
        },
    }

    match (find_char(cls, '('), find_char(cls, ')')) {
        (Some(s), Some(e)) if s <= e => {
            proof {
                lemma_spec_find(cls@, '(');
                lemma_spec_find(cls@, ')');
                assert(cls@[s as int] == '(');
                assert(cls@[e as int] == ')');
            }
            let c = build_valued(cls, pseudo, original, s, e, ValueType::Variable);
            proof {
                assert(c@ =~= spec_parse(original@)->Ok_0);
            }
            return Ok(c);
        },
        _ => {},
    }

    match (find_char(cls, '['), find_char(cls, ']')) {
        (Some(s), Some(e)) if s <= e => {
            proof {
                lemma_spec_find(cls@, '[');
                lemma_spec_find(cls@, ']');
                assert(cls@[s as int] == '[');
                assert(cls@[e as int] == ']');
            }
            let c = build_valued(cls, pseudo, original, s, e, ValueType::Normal);
            proof {
                assert(c@ =~= spec_parse(original@)->Ok_0);
            }
            Ok(c)
        },
        _ => {
            let mods: Vec<String> = Vec::new();
            let modifiers = Modifiers::new(mods);
            let c = Class {
                property: cls.to_owned(),
                value: None,
                value_type: ValueType::Normal,
                modifiers,
                pseudo,
                original: original.to_owned(),
            };
            proof {
                assert(modifiers@.all =~= Seq::<Seq<char>>::empty());
                assert(c@ =~= spec_parse(original@)->Ok_0);
            }
            Ok(c)
        },
    }
}

} // verus!
