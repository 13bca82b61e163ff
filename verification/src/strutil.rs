//! String primitives shared by the tokenizer, the selector builder and the
//! declaration generator: finding and splitting on delimiter characters,
//! joining, character substitution and selector escaping, all specified over
//! `Seq<char>` views.

use vstd::prelude::*;

verus! {

use vstd::string::StrSliceExecFns;
use vstd::string::StringExecFns;

// ---------------------------------------------------------------------------
// Finding the first occurrence of a character
// ---------------------------------------------------------------------------

/// Index of the first occurrence of `c` in `s`, if any.
pub open spec fn spec_find(s: Seq<char>, c: char) -> Option<int>
    decreases s.len(),
{
    if s.len() == 0 {
        None
    } else if s[0] == c {
        Some(0int)
    } else {
        match spec_find(s.drop_first(), c) {
            Some(i) => Some(i + 1),
            None => None,
        }
    }
}

/// `spec_find` returns the first index holding `c`, or `None` when `c` is absent.
pub proof fn lemma_spec_find(s: Seq<char>, c: char)
    ensures
        match spec_find(s, c) {
            Some(i) => 0 <= i < s.len() && s[i] == c && (forall|j: int| 0 <= j < i ==> s[j] != c),
            None => forall|j: int| 0 <= j < s.len() ==> s[j] != c,
        },
    decreases s.len(),
{
    if s.len() == 0 {
    } else if s[0] == c {
    } else {
        lemma_spec_find(s.drop_first(), c);
        assert(forall|j: int| 1 <= j < s.len() ==> s[j] == s.drop_first()[j - 1]);
    }
}

/// First index of `c` in `s`, if any.
pub fn find_char(s: &str, c: char) -> (r: Option<usize>)
    ensures
        spec_find(s@, c) == match r {
            Some(i) => Some(i as int),
            None => None::<int>,
        },
{
    let n = s.unicode_len();
    let mut i: usize = 0;
    while i < n
        invariant
            n == s@.len(),
            0 <= i <= n,
            forall|j: int| 0 <= j < i ==> s@[j] != c,
        decreases n - i,
    {
        if s.get_char(i) == c {
            proof {
                lemma_spec_find(s@, c);
            }
            return Some(i);
        }
        i += 1;
    }
    proof {
        lemma_spec_find(s@, c);
    }
    None
}

// ---------------------------------------------------------------------------
// Equality of strings
// ---------------------------------------------------------------------------

/// Character-for-character equality of two string slices.
pub fn str_eq(a: &str, b: &str) -> (r: bool)
    ensures
        r == (a@ == b@),
{
    let na = a.unicode_len();
    let nb = b.unicode_len();
    if na != nb {
        return false;
    }
    let mut i: usize = 0;
    while i < na
        invariant
            na == a@.len(),
            na == b@.len(),
            0 <= i <= na,
            forall|j: int| 0 <= j < i ==> a@[j] == b@[j],
        decreases na - i,
    {
        if a.get_char(i) != b.get_char(i) {
            return false;
        }
        i += 1;
    }
    proof {
        assert(a@ =~= b@);
    }
    true
}

/// Character-for-character equality of two string lists.
pub fn vec_str_eq(a: &Vec<String>, b: &Vec<String>) -> (r: bool)
    ensures
        r == (a.deep_view() == b.deep_view()),
{
    let n = a.len();
    if n != b.len() {
        proof {
            assert(a.deep_view().len() != b.deep_view().len());
        }
        return false;
    }
    let mut i: usize = 0;
    while i < n
        invariant
            n == a.len() == b.len(),
            0 <= i <= n,
            forall|j: int| 0 <= j < i ==> a.deep_view()[j] == b.deep_view()[j],
        decreases n - i,
    {
        if !str_eq(a[i].as_str(), b[i].as_str()) {
            proof {
                assert(a.deep_view()[i as int] != b.deep_view()[i as int]);
            }
            return false;
        }
        i += 1;
    }
    proof {
        assert(a.deep_view() =~= b.deep_view());
    }
    true
}

// ---------------------------------------------------------------------------
// Building strings
// ---------------------------------------------------------------------------

/// Appends the characters of `s` to `v`.
pub fn push_chars(v: &mut Vec<char>, s: &str)
    ensures
        final(v)@ == old(v)@ + s@,
{
    let n = s.unicode_len();
    let mut i: usize = 0;
    while i < n
        invariant
            n == s@.len(),
            0 <= i <= n,
            v@ == old(v)@ + s@.take(i as int),
        decreases n - i,
    {
        v.push(s.get_char(i));
        proof {
            assert(s@.take(i + 1) =~= s@.take(i as int) + seq![s@[i as int]]);
            assert(old(v)@ + s@.take(i as int) + seq![s@[i as int]] =~= old(v)@ + s@.take(i + 1));
        }
        i += 1;
    }
    proof {
        assert(s@.take(n as int) =~= s@);
    }
}

/// Relies on `String: FromIterator<char>`: collecting characters yields the
/// string holding exactly those characters in order.
#[verifier::external_body]
pub fn chars_to_string(v: &Vec<char>) -> (r: String)
    ensures
        r@ == v@,
{
    v.iter().collect()
}

/// Owned copy of the character range `[from, to)` of `s`.
pub fn substring(s: &str, from: usize, to: usize) -> (r: String)
    requires
        from <= to <= s@.len(),
    ensures
        r@ == s@.subrange(from as int, to as int),
{
    s.substring_char(from, to).to_owned()
}

// ---------------------------------------------------------------------------
// Splitting on a separator character
// ---------------------------------------------------------------------------

/// The pieces of `s` between occurrences of `c`, in order.  A separator at
/// either edge or two adjacent separators contribute empty pieces.
pub open spec fn spec_split(s: Seq<char>, c: char) -> Seq<Seq<char>>
    decreases s.len(),
    via spec_split_decreases
{
    match spec_find(s, c) {
        None => seq![s],
        Some(p) => seq![s.take(p)] + spec_split(s.skip(p + 1), c),
    }
}

#[via_fn]
proof fn spec_split_decreases(s: Seq<char>, c: char) {
    lemma_spec_find(s, c);
}

/// Splits `s` on `c`.
pub fn split_on_char(s: &str, c: char) -> (r: Vec<String>)
    ensures
        r.deep_view() == spec_split(s@, c),
    decreases s@.len(),
{
    let n = s.unicode_len();
    match find_char(s, c) {
        None => {
            let mut r: Vec<String> = Vec::new();
            r.push(s.to_owned());
            proof {
                assert(r.deep_view() =~= spec_split(s@, c));
            }
            r
        },
        Some(p) => {
            proof {
                lemma_spec_find(s@, c);
            }
            let head = substring(s, 0, p);
            let rest = s.substring_char(p + 1, n);
            let tail = split_on_char(rest, c);
            let mut r: Vec<String> = Vec::new();
            r.push(head);
            let mut j: usize = 0;
            while j < tail.len()
                invariant
                    0 <= j <= tail.len(),
                    r.deep_view() == seq![head@] + tail.deep_view().take(j as int),
                decreases tail.len() - j,
            {
                r.push(tail[j].clone());
                proof {
                    assert(tail.deep_view().take(j + 1) =~= tail.deep_view().take(j as int)
                        + seq![tail.deep_view()[j as int]]);
                    assert(seq![head@] + tail.deep_view().take(j as int) + seq![tail.deep_view()[j as int]]
                        =~= seq![head@] + tail.deep_view().take(j + 1));
                }
                j += 1;
            }
            proof {
                assert(tail.deep_view().take(tail.len() as int) =~= tail.deep_view());
                assert(head@ =~= s@.take(p as int));
                assert(rest@ =~= s@.skip(p + 1));
                assert(r.deep_view() =~= spec_split(s@, c));
            }
            r
        },
    }
}

// ---------------------------------------------------------------------------
// Splitting on ASCII whitespace
// ---------------------------------------------------------------------------

/// ASCII whitespace.
pub open spec fn is_ws(c: char) -> bool {
    c == ' ' || c == '\t' || c == '\n' || c == '\r' || c == '\x0C'
}

/// The number of leading whitespace characters of `s`.
pub open spec fn spec_skip_ws(s: Seq<char>) -> int
    decreases s.len(),
{
    if s.len() == 0 {
        0
    } else if is_ws(s[0]) {
        1 + spec_skip_ws(s.drop_first())
    } else {
        0
    }
}

/// The number of leading non-whitespace characters of `s`.
pub open spec fn spec_token_len(s: Seq<char>) -> int
    decreases s.len(),
{
    if s.len() == 0 {
        0
    } else if is_ws(s[0]) {
        0
    } else {
        1 + spec_token_len(s.drop_first())
    }
}

/// `spec_skip_ws` counts exactly the leading whitespace run.
pub proof fn lemma_skip_ws(s: Seq<char>)
    ensures
        0 <= spec_skip_ws(s) <= s.len(),
        forall|j: int| 0 <= j < spec_skip_ws(s) ==> is_ws(s[j]),
        spec_skip_ws(s) < s.len() ==> !is_ws(s[spec_skip_ws(s)]),
    decreases s.len(),
{
    if s.len() == 0 {
    } else if is_ws(s[0]) {
        lemma_skip_ws(s.drop_first());
        assert(forall|j: int| 1 <= j < s.len() ==> s[j] == s.drop_first()[j - 1]);
    } else {
    }
}

/// `spec_token_len` counts exactly the leading non-whitespace run.
pub proof fn lemma_token_len(s: Seq<char>)
    ensures
        0 <= spec_token_len(s) <= s.len(),
        forall|j: int| 0 <= j < spec_token_len(s) ==> !is_ws(s[j]),
        spec_token_len(s) < s.len() ==> is_ws(s[spec_token_len(s)]),
    decreases s.len(),
{
    if s.len() == 0 {
    } else if is_ws(s[0]) {
    } else {
        lemma_token_len(s.drop_first());
        assert(forall|j: int| 1 <= j < s.len() ==> s[j] == s.drop_first()[j - 1]);
    }
}

/// The maximal non-whitespace runs of `s`, in order.
pub open spec fn spec_split_ws(s: Seq<char>) -> Seq<Seq<char>>
    decreases s.len(),
    via spec_split_ws_decreases
{
    let a = spec_skip_ws(s);
    if a == s.len() {
        Seq::empty()
    } else {
        let t = s.skip(a);
        let e = spec_token_len(t);
        seq![t.take(e)] + spec_split_ws(t.skip(e))
    }
}

#[via_fn]
proof fn spec_split_ws_decreases(s: Seq<char>) {
    lemma_skip_ws(s);
    if spec_skip_ws(s) != s.len() {
        lemma_token_len(s.skip(spec_skip_ws(s)));
        assert(!is_ws(s.skip(spec_skip_ws(s))[0]));
    }
}

/// Whether `c` is ASCII whitespace.
pub fn is_ws_char(c: char) -> (r: bool)
    ensures
        r == is_ws(c),
{
    c == ' ' || c == '\t' || c == '\n' || c == '\r' || c == '\x0C'
}

/// Splits `s` into its maximal non-whitespace runs.
pub fn split_ws(s: &str) -> (v: Vec<String>)
    ensures
        v.deep_view() == spec_split_ws(s@),
    decreases s@.len(),
{
    let n = s.unicode_len();
    let mut a: usize = 0;
    while a < n && is_ws_char(s.get_char(a))
        invariant
            n == s@.len(),
            0 <= a <= n,
            forall|j: int| 0 <= j < a ==> is_ws(s@[j]),
        decreases n - a,
    {
        a += 1;
    }
    proof {
        lemma_skip_ws(s@);
        assert(spec_skip_ws(s@) == a) by {
            let k = spec_skip_ws(s@);
            if k < a {
                assert(is_ws(s@[k]));
            }
            if k > a {
                assert(is_ws(s@[a as int]));
            }
        }
    }
    if a == n {
        let v: Vec<String> = Vec::new();
        proof {
            assert(v.deep_view() =~= spec_split_ws(s@));
        }
        return v;
    }
    let mut e: usize = a;
    while e < n && !is_ws_char(s.get_char(e))
        invariant
            n == s@.len(),
            a <= e <= n,
            forall|j: int| a <= j < e ==> !is_ws(s@[j]),
        decreases n - e,
    {
        e += 1;
    }
    proof {
        let t = s@.skip(a as int);
        lemma_token_len(t);
        assert(forall|j: int| 0 <= j < t.len() ==> t[j] == s@[j + a]);
        assert(spec_token_len(t) == e - a) by {
            let k = spec_token_len(t);
            if k < e - a {
                assert(is_ws(t[k]));
                assert(t[k] == s@[k + a]);
            }
            if k > e - a {
                assert(!is_ws(t[e - a]));
                assert(e < n ==> is_ws(s@[e as int]));
            }
        }
    }
    let token = substring(s, a, e);
    let rest = s.substring_char(e, n);
    proof {
        assert(rest@ =~= s@.skip(e as int));
        assert(rest@.len() < s@.len());
    }
    let tail = split_ws(rest);
    let mut v: Vec<String> = Vec::new();
    v.push(token);
    let mut j: usize = 0;
    while j < tail.len()
        invariant
            0 <= j <= tail.len(),
            v.deep_view() == seq![token@] + tail.deep_view().take(j as int),
        decreases tail.len() - j,
    {
        v.push(tail[j].clone());
        proof {
            assert(tail.deep_view().take(j + 1) =~= tail.deep_view().take(j as int) + seq![
                tail.deep_view()[j as int],
            ]);
            assert(seq![token@] + tail.deep_view().take(j as int) + seq![
                tail.deep_view()[j as int],
            ] =~= seq![token@] + tail.deep_view().take(j + 1));
        }
        j += 1;
    }
    proof {
        let t = s@.skip(a as int);
        assert(tail.deep_view().take(tail.len() as int) =~= tail.deep_view());
        assert(token@ =~= t.take(spec_token_len(t)));
        assert(rest@ =~= t.skip(spec_token_len(t)));
        assert(v.deep_view() =~= spec_split_ws(s@));
    }
    v
}

// ---------------------------------------------------------------------------
// Membership in a list of strings
// ---------------------------------------------------------------------------

/// Whether some element of `v` holds the same characters as `s`.
pub fn vec_contains_str(v: &Vec<String>, s: &str) -> (r: bool)
    ensures
        r == exists|j: int| 0 <= j < v@.len() && v@[j]@ == s@,
{
    let n = v.len();
    let mut i: usize = 0;
    while i < n
        invariant
            n == v@.len(),
            0 <= i <= n,
            forall|j: int| 0 <= j < i ==> v@[j]@ != s@,
        decreases n - i,
    {
        if str_eq(v[i].as_str(), s) {
            return true;
        }
        i += 1;
    }
    false
}

// ---------------------------------------------------------------------------
// Joining with a separator
// ---------------------------------------------------------------------------

/// Concatenation of `parts` with `sep` between adjacent parts.
pub open spec fn spec_join(parts: Seq<Seq<char>>, sep: Seq<char>) -> Seq<char>
    decreases parts.len(),
{
    if parts.len() == 0 {
        Seq::empty()
    } else if parts.len() == 1 {
        parts[0]
    } else {
        parts[0] + sep + spec_join(parts.drop_first(), sep)
    }
}

/// Joining after appending one part appends a separator and that part
/// (or is just that part when nothing came before).
pub proof fn lemma_join_push(parts: Seq<Seq<char>>, sep: Seq<char>, x: Seq<char>)
    ensures
        spec_join(parts.push(x), sep) == if parts.len() == 0 {
            x
        } else {
            spec_join(parts, sep) + sep + x
        },
    decreases parts.len(),
{
    if parts.len() == 0 {
        assert(parts.push(x)[0] == x);
    } else if parts.len() == 1 {
        assert(parts.push(x).drop_first() =~= seq![x]);
        assert(parts.push(x)[0] == parts[0]);
        assert(spec_join(seq![x], sep) == x);
        assert(spec_join(parts.push(x), sep) == parts[0] + sep + x);
    } else {
        lemma_join_push(parts.drop_first(), sep, x);
        assert(parts.push(x).drop_first() =~= parts.drop_first().push(x));
        assert(spec_join(parts, sep) + sep + x =~= parts[0] + sep + (spec_join(
            parts.drop_first(),
            sep,
        ) + sep + x));
    }
}

/// Joins `parts` with `sep` between adjacent parts.
pub fn join_with(parts: &Vec<String>, sep: &str) -> (r: Vec<char>)
    ensures
        r@ == spec_join(parts.deep_view(), sep@),
{
    let mut r: Vec<char> = Vec::new();
    let n = parts.len();
    let mut i: usize = 0;
    while i < n
        invariant
            n == parts.len(),
            0 <= i <= n,
            r@ == spec_join(parts.deep_view().take(i as int), sep@),
        decreases n - i,
    {
        if i > 0 {
            push_chars(&mut r, sep);
        }
        push_chars(&mut r, parts[i].as_str());
        proof {
            lemma_join_push(parts.deep_view().take(i as int), sep@, parts.deep_view()[i as int]);
            assert(parts.deep_view().take(i + 1) =~= parts.deep_view().take(i as int).push(
                parts.deep_view()[i as int],
            ));
            if i == 0 {
                assert(parts.deep_view().take(0int).len() == 0);
                assert(r@ =~= spec_join(parts.deep_view().take(i + 1), sep@));
            } else {
                assert(r@ =~= spec_join(parts.deep_view().take(i + 1), sep@));
            }
        }
        i += 1;
    }
    proof {
        assert(parts.deep_view().take(n as int) =~= parts.deep_view());
    }
    r
}

// ---------------------------------------------------------------------------
// Underscore substitution
// ---------------------------------------------------------------------------

/// `s` with every underscore replaced by a space.
pub open spec fn spec_subst_underscores(s: Seq<char>) -> Seq<char> {
    Seq::new(s.len(), |i: int| if s[i] == '_' { ' ' } else { s[i] })
}

/// Replaces underscores with spaces.
pub fn subst_underscores(s: &str) -> (r: Vec<char>)
    ensures
        r@ == spec_subst_underscores(s@),
{
    let n = s.unicode_len();
    let mut r: Vec<char> = Vec::new();
    let mut i: usize = 0;
    while i < n
        invariant
            n == s@.len(),
            0 <= i <= n,
            r@.len() == i,
            forall|j: int| 0 <= j < i ==> r@[j] == spec_subst_underscores(s@)[j],
        decreases n - i,
    {
        let c = s.get_char(i);
        if c == '_' {
            r.push(' ');
        } else {
            r.push(c);
        }
        i += 1;
    }
    proof {
        assert(r@ =~= spec_subst_underscores(s@));
    }
    r
}

// ---------------------------------------------------------------------------
// Selector escaping
// ---------------------------------------------------------------------------

/// The characters that must be escaped for literal use in a CSS selector.
pub open spec fn is_escape_char(c: char) -> bool {
    c == '[' || c == ']' || c == '|' || c == '(' || c == ')' || c == '{' || c == '}' || c == '.'
        || c == '#' || c == '$' || c == '\'' || c == '*' || c == '<' || c == '@' || c == '%'
}

/// One escaped character: a backslash before it when it needs escaping.
pub open spec fn spec_escape_char(c: char) -> Seq<char> {
    if is_escape_char(c) {
        seq!['\\', c]
    } else {
        seq![c]
    }
}

/// `s` escaped for literal use in a CSS selector.
pub open spec fn spec_escape(s: Seq<char>) -> Seq<char>
    decreases s.len(),
{
    if s.len() == 0 {
        Seq::empty()
    } else {
        spec_escape_char(s[0]) + spec_escape(s.drop_first())
    }
}

/// Escaping distributes over concatenation.
pub proof fn lemma_escape_append(a: Seq<char>, b: Seq<char>)
    ensures
        spec_escape(a + b) == spec_escape(a) + spec_escape(b),
    decreases a.len(),
{
    if a.len() == 0 {
        assert(a + b =~= b);
        assert(spec_escape(a) + spec_escape(b) =~= spec_escape(b));
    } else {
        lemma_escape_append(a.drop_first(), b);
        assert((a + b).drop_first() =~= a.drop_first() + b);
        assert((a + b)[0] == a[0]);
        assert(spec_escape_char(a[0]) + (spec_escape(a.drop_first()) + spec_escape(b))
            =~= (spec_escape_char(a[0]) + spec_escape(a.drop_first())) + spec_escape(b));
    }
}

/// Escapes every selector-significant character of `v` with a backslash.
pub fn escape_chars(v: &Vec<char>) -> (r: Vec<char>)
    ensures
        r@ == spec_escape(v@),
{
    let n = v.len();
    let mut r: Vec<char> = Vec::new();
    let mut i: usize = 0;
    while i < n
        invariant
            n == v@.len(),
            0 <= i <= n,
            r@ == spec_escape(v@.take(i as int)),
        decreases n - i,
    {
        let c = v[i];
        if c == '[' || c == ']' || c == '|' || c == '(' || c == ')' || c == '{' || c == '}'
            || c == '.' || c == '#' || c == '$' || c == '\'' || c == '*' || c == '<' || c == '@'
            || c == '%' {
            r.push('\\');
            r.push(c);
        } else {
            r.push(c);
        }
        proof {
            assert(v@.take(i + 1) =~= v@.take(i as int) + seq![v@[i as int]]);
            lemma_escape_append(v@.take(i as int), seq![v@[i as int]]);
            assert(seq![v@[i as int]].drop_first() =~= Seq::<char>::empty());
            assert(spec_escape(Seq::<char>::empty()) =~= Seq::<char>::empty());
            assert(spec_escape(seq![v@[i as int]]) =~= spec_escape_char(v@[i as int]));
            assert(r@ =~= spec_escape(v@.take(i as int)) + spec_escape_char(v@[i as int]));
        }
        i += 1;
    }
    proof {
        assert(v@.take(n as int) =~= v@);
    }
    r
}

// ---------------------------------------------------------------------------
// Decimal rendering
// ---------------------------------------------------------------------------

/// The decimal digits of `n`, most significant first.
pub open spec fn spec_dec(n: nat) -> Seq<char>
    decreases n,
{
    if n < 10 {
        seq![spec_digit(n)]
    } else {
        spec_dec(n / 10) + seq![spec_digit(n % 10)]
    }
}

/// The character for the decimal digit `d`.
pub open spec fn spec_digit(d: nat) -> char {
    ((48 + (d % 10)) as u8) as char
}

/// Renders `n` in decimal.
pub fn u16_to_dec(n: u16) -> (r: Vec<char>)
    ensures
        r@ == spec_dec(n as nat),
    decreases n,
{
    if n < 10 {
        let d: u8 = 48 + (n as u8);
        let mut r: Vec<char> = Vec::new();
        r.push(d as char);
        proof {
            assert(r@ =~= spec_dec(n as nat));
        }
        r
    } else {
        let mut r = u16_to_dec(n / 10);
        let d: u8 = 48 + ((n % 10) as u8);
        r.push(d as char);
        proof {
            assert(r@ =~= spec_dec((n / 10) as nat) + seq![spec_digit((n % 10) as nat)]);
        }
        r
    }
}

} // verus!
