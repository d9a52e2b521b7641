//! The result set: merging the links that the traversal strategies found into
//! one canonical list (each link once, in lexicographic order) and removing
//! the links that carry a denylisted marker.

use vstd::prelude::*;
use crate::text::{
    contains_seq, contains_text, lemma_lex_asymmetric, lemma_lex_irreflexive, lemma_lex_total,
    lemma_lex_transitive, lex_less, text_less,
};

verus! {

/// The output of a run: document links, no duplicates, no denylisted entries.
pub struct LinksPayload {
    pub list: Vec<String>,
}

/// The reply of the endpoint that receives the payload.
pub struct ResponsePut {
    pub message1: String,
    pub message2: String,
}

/// Each element comes strictly before the next: sorted and free of duplicates.
pub open spec fn strictly_sorted(s: Seq<Seq<char>>) -> bool {
    forall|i: int, j: int| 0 <= i < j < s.len() ==> lex_less(s[i], s[j])
}

/// `r` holds each distinct link of `x` exactly once, in lexicographic order.
pub open spec fn canonical_of(r: Seq<Seq<char>>, x: Seq<Seq<char>>) -> bool {
    strictly_sorted(r) && r.to_set() == x.to_set()
}

/// The link contains one of the tokens.
pub open spec fn mentions_any(link: Seq<char>, tokens: Seq<Seq<char>>) -> bool {
    exists|k: int| 0 <= k < tokens.len() && contains_seq(link, #[trigger] tokens[k])
}

/// The predicate of the links that survive the denylist `tokens`.
pub open spec fn kept_by(tokens: Seq<Seq<char>>) -> spec_fn(Seq<char>) -> bool {
    |l: Seq<char>| !mentions_any(l, tokens)
}

/// `out` is the final output for the links of `all` under the denylist
/// `tokens`: the canonical form of the links that mention no token.
pub open spec fn finalized(out: Seq<Seq<char>>, all: Seq<Seq<char>>, tokens: Seq<Seq<char>>) -> bool {
    canonical_of(out, all.filter(kept_by(tokens)))
}

/// The year markers excluded by default.
pub open spec fn old_year_tokens() -> Seq<Seq<char>> {
    seq![seq!['2', '0', '2', '2'], seq!['2', '0', '2', '3']]
}

/// Two strictly sorted sequences with the same elements are equal.
pub proof fn lemma_sorted_unique(a: Seq<Seq<char>>, b: Seq<Seq<char>>)
    requires
        strictly_sorted(a),
        strictly_sorted(b),
        a.to_set() == b.to_set(),
    ensures
        a == b,
    decreases a.len(),
{
    if a.len() == 0 {
        if b.len() > 0 {
            assert(b.to_set().contains(b[0]));
        }
        assert(a =~= b);
    } else if b.len() == 0 {
        assert(a.to_set().contains(a[0]));
    } else {
        assert(a.to_set().contains(a[0]));
        assert(b.to_set().contains(b[0]));
        let j = choose|j: int| 0 <= j < b.len() && b[j] == a[0];
        let k = choose|k: int| 0 <= k < a.len() && a[k] == b[0];
        if j > 0 {
            assert(lex_less(b[0], a[0]));
            if k > 0 {
                lemma_lex_asymmetric(b[0], a[0]);
            } else {
                lemma_lex_irreflexive(b[0]);
            }
        }
        assert(a[0] == b[0]);
        let a1 = a.drop_first();
        let b1 = b.drop_first();
        lemma_lex_irreflexive(a[0]);
        assert forall|e: Seq<char>| a1.contains(e) implies b1.contains(e) by {
            let i = choose|i: int| 0 <= i < a1.len() && a1[i] == e;
            assert(lex_less(a[0], a[i + 1]));
            assert(a.to_set().contains(e));
            let m = choose|m: int| 0 <= m < b.len() && b[m] == e;
            assert(m != 0);
            assert(b1[m - 1] == e);
        }
        assert forall|e: Seq<char>| b1.contains(e) implies a1.contains(e) by {
            let i = choose|i: int| 0 <= i < b1.len() && b1[i] == e;
            assert(lex_less(b[0], b[i + 1]));
            assert(b.to_set().contains(e));
            let m = choose|m: int| 0 <= m < a.len() && a[m] == e;
            assert(m != 0);
            assert(a1[m - 1] == e);
        }
        assert(a1.to_set() =~= b1.to_set());
        lemma_sorted_unique(a1, b1);
        assert(a =~= b) by {
            assert(a.len() == b.len());
            assert forall|i: int| 0 <= i < a.len() implies a[i] == b[i] by {
                if i > 0 {
                    assert(a[i] == a1[i - 1]);
                    assert(b[i] == b1[i - 1]);
                }
            }
        }
    }
}

/// Merging is idempotent: merging an already merged list gives it back.
pub proof fn lemma_merge_idempotent(x: Seq<Seq<char>>, once: Seq<Seq<char>>, twice: Seq<Seq<char>>)
    requires
        canonical_of(once, x),
        canonical_of(twice, once),
    ensures
        twice == once,
{
    lemma_sorted_unique(twice, once);
}

/// The denylist filter is exact: of the links found, every one that contains
/// a denylisted token is absent from the output, and every one that contains
/// none is present, once.
pub proof fn lemma_filter_exact(all: Seq<Seq<char>>, tokens: Seq<Seq<char>>, out: Seq<Seq<char>>)
    requires
        finalized(out, all, tokens),
    ensures
        forall|l: Seq<char>| all.contains(l) && mentions_any(l, tokens) ==> !out.contains(l),
        forall|l: Seq<char>| all.contains(l) && !mentions_any(l, tokens) ==> out.contains(l),
        forall|l: Seq<char>| out.contains(l) ==> all.contains(l) && !mentions_any(l, tokens),
        out.no_duplicates(),
{
    broadcast use vstd::seq_lib::group_filter_ensures;
    let f = all.filter(kept_by(tokens));
    assert forall|l: Seq<char>| all.contains(l) && mentions_any(l, tokens) implies !out.contains(l) by {
        if out.contains(l) {
            assert(out.to_set().contains(l));
            assert(f.contains(l));
            let i = choose|i: int| 0 <= i < f.len() && f[i] == l;
            assert(kept_by(tokens)(f[i]));
        }
    }
    assert forall|l: Seq<char>| all.contains(l) && !mentions_any(l, tokens) implies out.contains(l) by {
        let i = choose|i: int| 0 <= i < all.len() && all[i] == l;
        assert(f.contains(all[i]));
        assert(f.to_set().contains(l));
    }
    assert forall|l: Seq<char>| out.contains(l) implies all.contains(l) && !mentions_any(l, tokens) by {
        assert(out.to_set().contains(l));
        assert(f.contains(l));
        all.lemma_filter_contains_rev(kept_by(tokens), l);
        let i = choose|i: int| 0 <= i < f.len() && f[i] == l;
        assert(kept_by(tokens)(f[i]));
    }
    assert forall|i: int, j: int| 0 <= i < out.len() && 0 <= j < out.len() && i != j
        implies out[i] != out[j] by {
        if i < j {
            assert(lex_less(out[i], out[j]));
            lemma_lex_irreflexive(out[i]);
        } else {
            assert(lex_less(out[j], out[i]));
            lemma_lex_irreflexive(out[j]);
        }
    }
}

/// Inserting `x` at position `p` of a strictly sorted sequence, where every
/// element before `p` is below `x` and the element at `p` (if any) above it,
/// keeps the sequence strictly sorted and adds `x` to its elements.
proof fn lemma_insert_sorted(d: Seq<Seq<char>>, p: int, x: Seq<char>)
    requires
        strictly_sorted(d),
        0 <= p <= d.len(),
        forall|j: int| 0 <= j < p ==> lex_less(#[trigger] d[j], x),
        p < d.len() ==> lex_less(x, d[p]),
    ensures
        strictly_sorted(d.insert(p, x)),
        d.insert(p, x).to_set() == d.to_set().insert(x),
{
    let n = d.insert(p, x);
    d.insert_ensures(p, x);
    assert forall|i: int, j: int| 0 <= i < j < n.len() implies lex_less(n[i], n[j]) by {
        if i == p && j - 1 > p {
            lemma_lex_transitive(x, d[p], d[j - 1]);
        }
    }
    assert forall|e: Seq<char>| #[trigger] n.contains(e) <==> d.contains(e) || e == x by {
        if n.contains(e) {
            let k = choose|k: int| 0 <= k < n.len() && n[k] == e;
            if k < p {
                assert(d[k] == e);
            } else if k > p {
                assert(d[k - 1] == e);
            }
        }
        if d.contains(e) {
            let k = choose|k: int| 0 <= k < d.len() && d[k] == e;
            if k < p {
                assert(n[k] == e);
            } else {
                assert(n[k + 1] == e);
            }
        }
        if e == x {
            assert(n[p] == e);
        }
    }
    assert(n.to_set() =~= d.to_set().insert(x));
}

/// Puts `s` into the sorted list `v`, unless it is there already.
fn insert_link(v: &mut Vec<String>, s: String)
    requires
        strictly_sorted(old(v).deep_view()),
    ensures
        strictly_sorted(final(v).deep_view()),
        final(v).deep_view().to_set() == old(v).deep_view().to_set().insert(s@),
{
    let ghost d = v.deep_view();
    let mut p: usize = 0;
    while p < v.len() && text_less(v[p].as_str(), s.as_str())
        invariant
            p <= v.len(),
            v.deep_view() == d,
            forall|j: int| 0 <= j < p ==> lex_less(#[trigger] d[j], s@),
        decreases v.len() - p,
    {
        p = p + 1;
    }
    if p < v.len() {
        let same = v[p] == s;
        assert(d[p as int] == v@[p as int]@);
        if same {
            assert(d.contains(s@));
            assert(d.to_set().insert(s@) =~= d.to_set());
            return;
        }
        proof {
            lemma_lex_total(d[p as int], s@);
        }
    }
    let ghost x = s@;
    v.insert(p, s);
    proof {
        assert(v.deep_view() =~= d.insert(p as int, x));
        lemma_insert_sorted(d, p as int, x);
    }
}

/// The merge step: each distinct link of `links` once, in lexicographic order.
pub fn merge_links(links: &Vec<String>) -> (r: Vec<String>)
    ensures
        canonical_of(r.deep_view(), links.deep_view()),
{
    let mut r: Vec<String> = Vec::new();
    let mut i: usize = 0;
    assert(r.deep_view().to_set() =~= links.deep_view().subrange(0, 0).to_set());
    while i < links.len()
        invariant
            i <= links.len(),
            strictly_sorted(r.deep_view()),
            r.deep_view().to_set() == links.deep_view().subrange(0, i as int).to_set(),
        decreases links.len() - i,
    {
        insert_link(&mut r, links[i].clone());
        proof {
            let l = links.deep_view();
            assert(l.subrange(0, i + 1) =~= l.subrange(0, i as int).push(l[i as int]));
            l.subrange(0, i as int).lemma_push_to_set_commute(l[i as int]);
        }
        i = i + 1;
    }
    assert(links.deep_view().subrange(0, links.len() as int) =~= links.deep_view());
    r
}

/// Whether `link` contains one of `tokens`.
pub fn mentions_any_token(link: &String, tokens: &Vec<String>) -> (r: bool)
    ensures
        r == mentions_any(link@, tokens.deep_view()),
{
    let mut k: usize = 0;
    while k < tokens.len()
        invariant
            k <= tokens.len(),
            forall|j: int| 0 <= j < k ==> !contains_seq(link@, #[trigger] tokens.deep_view()[j]),
        decreases tokens.len() - k,
    {
        if contains_text(link.as_str(), tokens[k].as_str()) {
            assert(contains_seq(link@, tokens.deep_view()[k as int]));
            return true;
        }
        k = k + 1;
    }
    false
}

/// The links of `links` that contain none of `tokens`, in their order.
pub fn filter_denylisted(links: &Vec<String>, tokens: &Vec<String>) -> (r: Vec<String>)
    ensures
        r.deep_view() == links.deep_view().filter(kept_by(tokens.deep_view())),
{
    let ghost p = kept_by(tokens.deep_view());
    let mut r: Vec<String> = Vec::new();
    let mut i: usize = 0;
    assert(links.deep_view().subrange(0, 0).filter(p) =~= Seq::<Seq<char>>::empty());
    while i < links.len()
        invariant
            i <= links.len(),
            p == kept_by(tokens.deep_view()),
            r.deep_view() == links.deep_view().subrange(0, i as int).filter(p),
        decreases links.len() - i,
    {
        let ghost before = r.deep_view();
        let hit = mentions_any_token(&links[i], tokens);
        if !hit {
            r.push(links[i].clone());
            assert(r.deep_view() =~= before.push(links.deep_view()[i as int]));
        }
        proof {
            let l = links.deep_view();
            assert(l.subrange(0, i + 1) =~= l.subrange(0, i as int).push(l[i as int]));
            l.subrange(0, i as int).lemma_filter_push(l[i as int], p);
        }
        i = i + 1;
    }
    assert(links.deep_view().subrange(0, links.len() as int) =~= links.deep_view());
    r
}

/// The year markers excluded by default, as strings.
pub fn old_year_denylist() -> (r: Vec<String>)
    ensures
        r.deep_view() == old_year_tokens(),
{
    let mut r: Vec<String> = Vec::new();
    let a = String::from_str("2022");
    let b = String::from_str("2023");
    proof {
        reveal_strlit("2022");
        reveal_strlit("2023");
    }
    assert(a@ =~= seq!['2', '0', '2', '2']);
    assert(b@ =~= seq!['2', '0', '2', '3']);
    r.push(a);
    r.push(b);
    assert(r.deep_view() =~= old_year_tokens());
    r
}

/// Removes from the payload every link that mentions one of the default year
/// markers, keeping the order of the others.
pub fn filter_old_links(payload: LinksPayload) -> (r: LinksPayload)
    ensures
        r.list.deep_view() == payload.list.deep_view().filter(kept_by(old_year_tokens())),
{
    let tokens = old_year_denylist();
    LinksPayload { list: filter_denylisted(&payload.list, &tokens) }
}

/// All links of all parts, part after part.
pub fn concat_parts(parts: &Vec<Vec<String>>) -> (r: Vec<String>)
    ensures
        r.deep_view() == parts.deep_view().flatten(),
{
    let mut r: Vec<String> = Vec::new();
    let mut k: usize = 0;
    while k < parts.len()
        invariant
            k <= parts.len(),
            r.deep_view() == parts.deep_view().subrange(0, k as int).flatten_alt(),
        decreases parts.len() - k,
    {
        let part = &parts[k];
        let ghost start = r.deep_view();
        let mut i: usize = 0;
        while i < part.len()
            invariant
                i <= part.len(),
                r.deep_view() == start + part.deep_view().subrange(0, i as int),
            decreases part.len() - i,
        {
            let ghost before = r.deep_view();
            r.push(part[i].clone());
            assert(r.deep_view() =~= before.push(part.deep_view()[i as int]));
            assert(part.deep_view().subrange(0, i + 1) =~= part.deep_view().subrange(0, i as int).push(part.deep_view()[i as int]));
            assert(r.deep_view() =~= start + part.deep_view().subrange(0, i + 1));
            i = i + 1;
        }
        proof {
            let ps = parts.deep_view();
            assert(ps.subrange(0, k + 1).drop_last() =~= ps.subrange(0, k as int));
            assert(part.deep_view().subrange(0, part.len() as int) =~= ps[k as int]);
        }
        k = k + 1;
    }
    proof {
        let ps = parts.deep_view();
        assert(ps.subrange(0, parts.len() as int) =~= ps);
        ps.lemma_flatten_and_flatten_alt_are_equivalent();
    }
    r
}

/// The final output of a run: the links of all parts, with every link that
/// mentions a token of `denylist` removed, each remaining link once, in
/// lexicographic order.
pub fn finalize(parts: &Vec<Vec<String>>, denylist: &Vec<String>) -> (r: LinksPayload)
    ensures
        finalized(r.list.deep_view(), parts.deep_view().flatten(), denylist.deep_view()),
{
    let all = concat_parts(parts);
    let kept = filter_denylisted(&all, denylist);
    let list = merge_links(&kept);
    LinksPayload { list }
}

} // verus!
