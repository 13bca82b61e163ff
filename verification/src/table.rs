//! The lookup registry's tables.  Every table is an ordered list of
//! key/value entries where the latest entry for a key wins, so extending a
//! table is appending and overriding is last-write-wins.  Lookups that miss
//! fall back to the raw key at the call sites, never failing generation.

use vstd::prelude::*;

verus! {

use vstd::string::StringExecFns;
use crate::strutil::str_eq;

/// The latest value stored for `k`, if any.
pub open spec fn assoc_get<T>(t: Seq<(Seq<char>, T)>, k: Seq<char>) -> Option<T>
    decreases t.len(),
{
    if t.len() == 0 {
        None
    } else if t.last().0 == k {
        Some(t.last().1)
    } else {
        assoc_get(t.drop_last(), k)
    }
}

/// The stored value for `k`, or `k` itself when nothing is stored: the
/// identity fallback every registry lookup obeys.
pub open spec fn assoc_resolve(t: Seq<(Seq<char>, Seq<char>)>, k: Seq<char>) -> Seq<char> {
    match assoc_get(t, k) {
        Some(v) => v,
        None => k,
    }
}

/// A string-to-string shorthand table.
#[derive(Debug)]
pub struct Table {
    pub entries: Vec<(String, String)>,
}

impl View for Table {
    type V = Seq<(Seq<char>, Seq<char>)>;

    open spec fn view(&self) -> Seq<(Seq<char>, Seq<char>)> {
        Seq::new(self.entries@.len(), |i: int| (self.entries@[i].0@, self.entries@[i].1@))
    }
}

impl Table {
    /// An empty table.
    pub fn new() -> (t: Table)
        ensures
            t@ == Seq::<(Seq<char>, Seq<char>)>::empty(),
    {
        let t = Table { entries: Vec::new() };
        proof {
            assert(t@ =~= Seq::<(Seq<char>, Seq<char>)>::empty());
        }
        t
    }

    /// Appends an entry; as the latest entry it overrides earlier ones for
    /// the same key.
    pub fn set(&mut self, k: &str, v: &str)
        ensures
            final(self)@ == old(self)@.push((k@, v@)),
    {
        self.entries.push((k.to_owned(), v.to_owned()));
        proof {
            assert(self@ =~= old(self)@.push((k@, v@)));
        }
    }

    /// The latest value stored for `k`, if any.
    pub fn get(&self, k: &str) -> (r: Option<&String>)
        ensures
            match r {
                Some(v) => assoc_get(self@, k@) == Some(v@),
                None => assoc_get(self@, k@) is None,
            },
    {
        let mut j: usize = self.entries.len();
        proof {
            assert(self@.take(self.entries@.len() as int) =~= self@);
        }
        while j > 0
            invariant
                0 <= j <= self.entries.len(),
                assoc_get(self@, k@) == assoc_get(self@.take(j as int), k@),
        decreases j,
        {
            proof {
                assert(self@.take(j as int).last() == self@[j - 1]);
                assert(self@.take(j as int).drop_last() =~= self@.take(j - 1));
            }
            if str_eq(self.entries[j - 1].0.as_str(), k) {
                return Some(&self.entries[j - 1].1);
            }
            j -= 1;
        }
        proof {
            assert(self@.take(0int).len() == 0);
        }
        None
    }

    /// The stored value for `k`, or `k` itself when nothing is stored.
    pub fn resolve(&self, k: &str) -> (r: String)
        ensures
            r@ == assoc_resolve(self@, k@),
    {
        match self.get(k) {
            Some(v) => v.clone(),
            None => k.to_owned(),
        }
    }
}

/// A multi-declaration template: literal parts with the resolved value
/// inserted between adjacent parts.  `margin-left:` / `;margin-right:` / ``
/// applied to `1rem` gives `margin-left:1rem;margin-right:1rem`.
#[derive(Debug)]
pub struct SpecialTemplate {
    pub parts: Vec<String>,
}

impl View for SpecialTemplate {
    type V = Seq<Seq<char>>;

    open spec fn view(&self) -> Seq<Seq<char>> {
        self.parts.deep_view()
    }
}

/// The template's parts with `val` between adjacent parts.
pub open spec fn spec_special_apply(parts: Seq<Seq<char>>, val: Seq<char>) -> Seq<char>
    decreases parts.len(),
{
    if parts.len() == 0 {
        Seq::empty()
    } else if parts.len() == 1 {
        parts[0]
    } else {
        parts[0] + val + spec_special_apply(parts.drop_first(), val)
    }
}

impl SpecialTemplate {
    /// A template over the given literal parts.
    pub fn new(parts: Vec<String>) -> (t: SpecialTemplate)
        ensures
            t@ == parts.deep_view(),
    {
        SpecialTemplate { parts }
    }

    /// Expands the template with `val`, yielding the full declaration block.
    pub fn apply(&self, val: &str) -> (r: String)
        ensures
            r@ == spec_special_apply(self@, val@),
    {
        let mut v: Vec<char> = Vec::new();
        let n = self.parts.len();
        let mut i: usize = 0;
        while i < n
            invariant
                n == self@.len(),
                0 <= i <= n,
                v@ == spec_special_apply_prefix(self@, val@, i as int),
            decreases n - i,
        {
            if i > 0 {
                crate::strutil::push_chars(&mut v, val);
            }
            crate::strutil::push_chars(&mut v, self.parts[i].as_str());
            proof {
                lemma_special_apply_prefix_step(self@, val@, i as int);
            }
            i += 1;
        }
        proof {
            lemma_special_apply_prefix_full(self@, val@);
        }
        crate::strutil::chars_to_string(&v)
    }
}

/// The expansion of the first `i` parts of the template.
spec fn spec_special_apply_prefix(parts: Seq<Seq<char>>, val: Seq<char>, i: int) -> Seq<
    char,
> {
    spec_special_apply(parts.take(i), val)
}

/// Expanding one more part appends `val` (except before the first part)
/// and that part.
proof fn lemma_special_apply_prefix_step(parts: Seq<Seq<char>>, val: Seq<char>, i: int)
    requires
        0 <= i < parts.len(),
    ensures
        spec_special_apply_prefix(parts, val, i + 1) == if i == 0 {
            parts[0]
        } else {
            spec_special_apply_prefix(parts, val, i) + val + parts[i]
        },
{
    lemma_special_apply_push(parts.take(i), val, parts[i]);
    assert(parts.take(i + 1) =~= parts.take(i).push(parts[i]));
}

/// Expanding all parts is expanding the whole template.
proof fn lemma_special_apply_prefix_full(parts: Seq<Seq<char>>, val: Seq<char>)
    ensures
        spec_special_apply_prefix(parts, val, parts.len() as int) == spec_special_apply(
            parts,
            val,
        ),
{
    assert(parts.take(parts.len() as int) =~= parts);
}

/// Appending a part to a template appends `val` and that part to its
/// expansion (or is just that part for the empty template).
proof fn lemma_special_apply_push(parts: Seq<Seq<char>>, val: Seq<char>, x: Seq<char>)
    ensures
        spec_special_apply(parts.push(x), val) == if parts.len() == 0 {
            x
        } else {
            spec_special_apply(parts, val) + val + x
        },
    decreases parts.len(),
{
    if parts.len() == 0 {
        assert(parts.push(x)[0] == x);
    } else if parts.len() == 1 {
        assert(parts.push(x).drop_first() =~= seq![x]);
        assert(parts.push(x)[0] == parts[0]);
        assert(spec_special_apply(seq![x], val) == x);
        assert(spec_special_apply(parts.push(x), val) == parts[0] + val + x);
    } else {
        lemma_special_apply_push(parts.drop_first(), val, x);
        assert(parts.push(x).drop_first() =~= parts.drop_first().push(x));
        assert(parts.push(x)[0] == parts[0]);
        assert(spec_special_apply(parts, val) + val + x =~= parts[0] + val + (spec_special_apply(
            parts.drop_first(),
            val,
        ) + val + x));
    }
}

/// A table of multi-declaration templates keyed by resolved property name.
#[derive(Debug)]
pub struct SpecialTable {
    pub entries: Vec<(String, SpecialTemplate)>,
}

impl View for SpecialTable {
    type V = Seq<(Seq<char>, Seq<Seq<char>>)>;

    open spec fn view(&self) -> Seq<(Seq<char>, Seq<Seq<char>>)> {
        Seq::new(self.entries@.len(), |i: int| (self.entries@[i].0@, self.entries@[i].1@))
    }
}

impl SpecialTable {
    /// An empty table.
    pub fn new() -> (t: SpecialTable)
        ensures
            t@ == Seq::<(Seq<char>, Seq<Seq<char>>)>::empty(),
    {
        let t = SpecialTable { entries: Vec::new() };
        proof {
            assert(t@ =~= Seq::<(Seq<char>, Seq<Seq<char>>)>::empty());
        }
        t
    }

    /// Appends a template; as the latest entry it overrides earlier ones
    /// for the same key.
    pub fn set(&mut self, k: &str, v: SpecialTemplate)
        ensures
            final(self)@ == old(self)@.push((k@, v@)),
    {
        self.entries.push((k.to_owned(), v));
        proof {
            assert(self@ =~= old(self)@.push((k@, v@)));
        }
    }

    /// The latest template stored for `k`, if any.
    pub fn get(&self, k: &str) -> (r: Option<&SpecialTemplate>)
        ensures
            match r {
                Some(v) => assoc_get(self@, k@) == Some(v@),
                None => assoc_get(self@, k@) is None,
            },
    {
        let mut j: usize = self.entries.len();
        proof {
            assert(self@.take(self.entries@.len() as int) =~= self@);
        }
        while j > 0
            invariant
                0 <= j <= self.entries.len(),
                assoc_get(self@, k@) == assoc_get(self@.take(j as int), k@),
        decreases j,
        {
            proof {
                assert(self@.take(j as int).last() == self@[j - 1]);
                assert(self@.take(j as int).drop_last() =~= self@.take(j - 1));
            }
            if str_eq(self.entries[j - 1].0.as_str(), k) {
                return Some(&self.entries[j - 1].1);
            }
            j -= 1;
        }
        proof {
            assert(self@.take(0int).len() == 0);
        }
        None
    }
}

/// A table of value-shorthand tables, each scoped to one resolved property.
#[derive(Debug)]
pub struct ContextTable {
    pub entries: Vec<(String, Table)>,
}

impl View for ContextTable {
    type V = Seq<(Seq<char>, Seq<(Seq<char>, Seq<char>)>)>;

    open spec fn view(&self) -> Seq<(Seq<char>, Seq<(Seq<char>, Seq<char>)>)> {
        Seq::new(self.entries@.len(), |i: int| (self.entries@[i].0@, self.entries@[i].1@))
    }
}

impl ContextTable {
    /// An empty table.
    pub fn new() -> (t: ContextTable)
        ensures
            t@ == Seq::<(Seq<char>, Seq<(Seq<char>, Seq<char>)>)>::empty(),
    {
        let t = ContextTable { entries: Vec::new() };
        proof {
            assert(t@ =~= Seq::<(Seq<char>, Seq<(Seq<char>, Seq<char>)>)>::empty());
        }
        t
    }

    /// Appends a scoped table; as the latest entry it overrides earlier
    /// ones for the same property.
    pub fn set(&mut self, k: &str, v: Table)
        ensures
            final(self)@ == old(self)@.push((k@, v@)),
    {
        self.entries.push((k.to_owned(), v));
        proof {
            assert(self@ =~= old(self)@.push((k@, v@)));
        }
    }

    /// The latest scoped table stored for `k`, if any.
    pub fn get(&self, k: &str) -> (r: Option<&Table>)
        ensures
            match r {
                Some(v) => assoc_get(self@, k@) == Some(v@),
                None => assoc_get(self@, k@) is None,
            },
    {
        let mut j: usize = self.entries.len();
        proof {
            assert(self@.take(self.entries@.len() as int) =~= self@);
        }
        while j > 0
            invariant
                0 <= j <= self.entries.len(),
                assoc_get(self@, k@) == assoc_get(self@.take(j as int), k@),
        decreases j,
        {
            proof {
                assert(self@.take(j as int).last() == self@[j - 1]);
                assert(self@.take(j as int).drop_last() =~= self@.take(j - 1));
            }
            if str_eq(self.entries[j - 1].0.as_str(), k) {
                return Some(&self.entries[j - 1].1);
            }
            j -= 1;
        }
        proof {
            assert(self@.take(0int).len() == 0);
        }
        None
    }
}

} // verus!
