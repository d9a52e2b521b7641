//! The targets of a run: the changelog pages by id, and the catalog pages
//! walked once with and once without panel expansion.

use vstd::prelude::*;
use crate::format::{int_text, push_int};
use crate::traversal::{Mode, PageTarget};

verus! {

/// The changelog ids visited by default: 2115, then 2400 up to 2799.
pub open spec fn change_ids() -> Seq<i32> {
    seq![2115i32] + Seq::new(400, |i: int| (2400 + i) as i32)
}

/// The changelog ids visited by default.
pub fn get_change_ids() -> (r: Vec<i32>)
    ensures
        r@ == change_ids(),
{
    let mut r: Vec<i32> = Vec::new();
    r.push(2115);
    let mut id: i32 = 2400;
    while id < 2800
        invariant
            2400 <= id <= 2800,
            r@ == seq![2115i32] + Seq::new((id - 2400) as nat, |i: int| (2400 + i) as i32),
        decreases 2800 - id,
    {
        r.push(id);
        assert(r@ =~= seq![2115i32] + Seq::new((id + 1 - 2400) as nat, |i: int| (2400 + i) as i32));
        id = id + 1;
    }
    assert(r@ =~= change_ids());
    r
}

/// The URL of changelog page `id`: the base followed by the id in decimal.
pub open spec fn changelog_url(base: Seq<char>, id: i32) -> Seq<char> {
    base + int_text(id as int)
}

/// One changelog target per id, in order.
pub fn changelog_targets(base: &String, ids: &Vec<i32>) -> (r: Vec<PageTarget>)
    ensures
        r@.len() == ids@.len(),
        forall|i: int|
            0 <= i < ids@.len() ==> (#[trigger] r@[i]).url@ == changelog_url(base@, ids@[i])
                && r@[i].mode == Mode::ChangeLog(ids@[i]),
{
    let mut r: Vec<PageTarget> = Vec::new();
    let mut k: usize = 0;
    while k < ids.len()
        invariant
            k <= ids.len(),
            r@.len() == k,
            forall|i: int|
                0 <= i < k ==> (#[trigger] r@[i]).url@ == changelog_url(base@, ids@[i])
                    && r@[i].mode == Mode::ChangeLog(ids@[i]),
        decreases ids.len() - k,
    {
        let id = ids[k];
        let mut url = base.clone();
        push_int(&mut url, id);
        r.push(PageTarget { url, mode: Mode::ChangeLog(id) });
        k = k + 1;
    }
    r
}

/// One catalog target per URL, in order, all of mode `mode`.
pub fn catalog_targets(urls: &Vec<String>, mode: Mode) -> (r: Vec<PageTarget>)
    ensures
        r@.len() == urls@.len(),
        forall|i: int|
            0 <= i < urls@.len() ==> (#[trigger] r@[i]).url@ == urls@[i]@ && r@[i].mode == mode,
{
    let mut r: Vec<PageTarget> = Vec::new();
    let mut k: usize = 0;
    while k < urls.len()
        invariant
            k <= urls.len(),
            r@.len() == k,
            forall|i: int| 0 <= i < k ==> (#[trigger] r@[i]).url@ == urls@[i]@ && r@[i].mode == mode,
        decreases urls.len() - k,
    {
        r.push(PageTarget { url: urls[k].clone(), mode });
        k = k + 1;
    }
    r
}

/// The targets of the three strategies of a run, in this order: the
/// changelog pages, the catalog pages with panel expansion, the catalog
/// pages without.
pub fn strategy_targets(catalog_urls: &Vec<String>, changelog_base: &String, ids: &Vec<i32>) -> (r:
    Vec<Vec<PageTarget>>)
    ensures
        r@.len() == 3,
        r@[0]@.len() == ids@.len(),
        forall|i: int|
            0 <= i < ids@.len() ==> (#[trigger] r@[0]@[i]).url@ == changelog_url(
                changelog_base@,
                ids@[i],
            ) && r@[0]@[i].mode == Mode::ChangeLog(ids@[i]),
        r@[1]@.len() == catalog_urls@.len(),
        r@[2]@.len() == catalog_urls@.len(),
        forall|i: int|
            0 <= i < catalog_urls@.len() ==> (#[trigger] r@[1]@[i]).url@ == catalog_urls@[i]@
                && r@[1]@[i].mode == Mode::WithExpansion,
        forall|i: int|
            0 <= i < catalog_urls@.len() ==> (#[trigger] r@[2]@[i]).url@ == catalog_urls@[i]@
                && r@[2]@[i].mode == Mode::WithoutExpansion,
{
    let mut r: Vec<Vec<PageTarget>> = Vec::new();
    r.push(changelog_targets(changelog_base, ids));
    r.push(catalog_targets(catalog_urls, Mode::WithExpansion));
    r.push(catalog_targets(catalog_urls, Mode::WithoutExpansion));
    r
}

} // verus!
