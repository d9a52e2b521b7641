//! Character-level primitives over strings: substring search, suffix test and
//! the lexicographic order used to put links into a canonical order.

use vstd::prelude::*;

verus! {

/// `t` occurs in `s` starting at position `i`.
pub open spec fn occurs_at(s: Seq<char>, t: Seq<char>, i: int) -> bool {
    0 <= i && i + t.len() <= s.len() && s.subrange(i, i + t.len()) == t
}

/// `t` occurs somewhere in `s`.
pub open spec fn contains_seq(s: Seq<char>, t: Seq<char>) -> bool {
    exists|i: int| occurs_at(s, t, i)
}

/// `s` ends with `t`.
pub open spec fn ends_with_seq(s: Seq<char>, t: Seq<char>) -> bool {
    t.len() <= s.len() && s.subrange(s.len() - t.len(), s.len() as int) == t
}

/// Strict lexicographic order on character sequences, comparing characters
/// by their scalar values; a proper prefix comes first.
pub open spec fn lex_less(a: Seq<char>, b: Seq<char>) -> bool
    decreases a.len(),
{
    if a.len() == 0 {
        b.len() > 0
    } else if b.len() == 0 {
        false
    } else if a[0] != b[0] {
        a[0] < b[0]
    } else {
        lex_less(a.drop_first(), b.drop_first())
    }
}

pub proof fn lemma_lex_irreflexive(a: Seq<char>)
    ensures
        !lex_less(a, a),
    decreases a.len(),
{
    if a.len() > 0 {
        lemma_lex_irreflexive(a.drop_first());
    }
}

pub proof fn lemma_lex_total(a: Seq<char>, b: Seq<char>)
    ensures
        a == b || lex_less(a, b) || lex_less(b, a),
    decreases a.len(),
{
    if a.len() > 0 && b.len() > 0 && a[0] == b[0] {
        lemma_lex_total(a.drop_first(), b.drop_first());
        if a.drop_first() == b.drop_first() {
            assert(a =~= seq![a[0]] + a.drop_first());
            assert(b =~= seq![b[0]] + b.drop_first());
        }
    } else if a.len() > 0 && b.len() > 0 {
        
    } else if a.len() == 0 && b.len() == 0 {
        assert(a =~= b);
    }
}

pub proof fn lemma_lex_transitive(a: Seq<char>, b: Seq<char>, c: Seq<char>)
    requires
        lex_less(a, b),
        lex_less(b, c),
    ensures
        lex_less(a, c),
    decreases a.len(),
{
    if a.len() > 0 && a[0] == b[0] && b[0] == c[0] {
        lemma_lex_transitive(a.drop_first(), b.drop_first(), c.drop_first());
    }
}

pub proof fn lemma_lex_asymmetric(a: Seq<char>, b: Seq<char>)
    requires
        lex_less(a, b),
    ensures
        !lex_less(b, a),
{
    if lex_less(b, a) {
        lemma_lex_transitive(a, b, a);
        lemma_lex_irreflexive(a);
    }
}

/// The characters of a string, one element each.
pub fn chars_of(s: &str) -> (r: Vec<char>)
    ensures
        r@ == s@,
{
    let n = s.unicode_len();
    let mut r: Vec<char> = Vec::new();
    let mut i: usize = 0;
    while i < n
        invariant
            n == s@.len(),
            i <= n,
            r@ == s@.subrange(0, i as int),
        decreases n - i,
    {
        r.push(s.get_char(i));
        i = i + 1;
    }
    assert(r@ =~= s@);
    r
}

/// Whether `t` occurs in `s` at position `i`.
fn occurs_at_exec(s: &Vec<char>, t: &Vec<char>, i: usize) -> (r: bool)
    ensures
        r == occurs_at(s@, t@, i as int),
{
    if i > s.len() || t.len() > s.len() - i {
        return false;
    }
    let n = s.len();
    let mut k: usize = 0;
    while k < t.len()
        invariant
            n == s@.len(),
            i + t@.len() <= s@.len(),
            k <= t@.len(),
            forall|j: int| 0 <= j < k ==> s@[i + j] == t@[j],
        decreases t@.len() - k,
    {
        if s[i + k] != t[k] {
            assert(s@.subrange(i as int, i + t@.len())[k as int] != t@[k as int]);
            return false;
        }
        k = k + 1;
    }
    assert(s@.subrange(i as int, i + t@.len()) =~= t@);
    true
}

/// Whether `token` occurs anywhere in `text`.
pub fn contains_text(text: &str, token: &str) -> (r: bool)
    ensures
        r == contains_seq(text@, token@),
{
    let s = chars_of(text);
    let t = chars_of(token);
    if t.len() > s.len() {
        return false;
    }
    let last = s.len() - t.len();
    let mut i: usize = 0;
    loop
        invariant
            last == s@.len() - t@.len(),
            t@.len() <= s@.len(),
            s@ == text@,
            t@ == token@,
            i <= last,
            forall|j: int| 0 <= j < i ==> !occurs_at(s@, t@, j),
        ensures
            forall|j: int| 0 <= j <= last ==> !occurs_at(s@, t@, j),
        decreases last - i,
    {
        if occurs_at_exec(&s, &t, i) {
            return true;
        }
        if i == last {
            break;
        }
        i = i + 1;
    }
    assert forall|j: int| !occurs_at(s@, t@, j) by {
        if 0 <= j && j + t@.len() <= s@.len() {
            assert(j <= last);
        }
    }
    false
}

/// Whether `text` ends with `suffix`.
pub fn ends_with_text(text: &str, suffix: &str) -> (r: bool)
    ensures
        r == ends_with_seq(text@, suffix@),
{
    let s = chars_of(text);
    let t = chars_of(suffix);
    if t.len() > s.len() {
        return false;
    }
    let r = occurs_at_exec(&s, &t, s.len() - t.len());
    r
}

/// Whether `a` comes strictly before `b` in the lexicographic order.
pub fn text_less(a: &str, b: &str) -> (r: bool)
    ensures
        r == lex_less(a@, b@),
{
    let x = chars_of(a);
    let y = chars_of(b);
    let mut i: usize = 0;
    assert(x@.skip(0) =~= x@);
    assert(y@.skip(0) =~= y@);
    while i < x.len() && i < y.len()
        invariant_except_break
            i <= x@.len(),
            i <= y@.len(),
            lex_less(x@, y@) == lex_less(x@.skip(i as int), y@.skip(i as int)),
        ensures
            lex_less(x@, y@) == lex_less(x@.skip(i as int), y@.skip(i as int)),
            i <= x@.len(),
            i <= y@.len(),
            i < x@.len() && i < y@.len() ==> x@[i as int] != y@[i as int],
        decreases x@.len() - i,
    {
        if x[i] != y[i] {
            break;
        }
        assert(x@.skip(i as int).drop_first() =~= x@.skip(i + 1));
        assert(y@.skip(i as int).drop_first() =~= y@.skip(i + 1));
        i = i + 1;
    }
    if i < x.len() && i < y.len() {
        x[i] < y[i]
    } else {
        i == x.len() && i < y.len()
    }
}

} // verus!
