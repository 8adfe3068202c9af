//! The fuzzy search over the item list: which items match, and in what order.
use vstd::prelude::*;
use crate::item::ItemWithStock;
use crate::text::{is_blank, push_str, str_is_blank};

verus! {

/// The score the skim fuzzy matcher (`SkimMatcherV2` with its default settings) gives
/// `pattern` against `choice`, or `None` where the pattern does not match.
pub uninterp spec fn skim_score(choice: Seq<char>, pattern: Seq<char>) -> Option<i64>;

/// `fuzzy_matcher`'s `SkimMatcherV2::default().fuzzy_match(choice, pattern)`.
#[verifier::external_body]
fn fuzzy_score(choice: &str, pattern: &str) -> (res: Option<i64>)
    ensures
        res == skim_score(choice@, pattern@),
{
    fuzzy_matcher::FuzzyMatcher::fuzzy_match(&fuzzy_matcher::skim::SkimMatcherV2::default(), choice, pattern)
}

/// The text an item is searched by: its SKU, a space, and its name.
pub open spec fn haystack(e: ItemWithStock) -> Seq<char> {
    e.item.sku.0@ + " "@ + e.item.name@
}

/// The score of item `i` for the query.
pub open spec fn score_of(items: Seq<ItemWithStock>, query: Seq<char>, i: int) -> Option<i64> {
    skim_score(haystack(items[i]), query)
}

/// Item `a` with score `sa` is listed before item `b` with score `sb`: a higher score
/// first, and on equal scores the earlier item first.
pub open spec fn ranks_before(sa: i64, a: int, sb: i64, b: int) -> bool {
    sa > sb || (sa == sb && a < b)
}

/// `order` lists exactly the items that match the query, best score first, ties in
/// list order.
pub open spec fn is_fuzzy_order(items: Seq<ItemWithStock>, query: Seq<char>, order: Seq<usize>) -> bool {
    &&& forall|k: int| 0 <= k < order.len() ==> (#[trigger] order[k]) < items.len()
            && score_of(items, query, order[k] as int) is Some
    &&& forall|i: int| 0 <= i < items.len() && (#[trigger] score_of(items, query, i)) is Some
            ==> exists|k: int| 0 <= k < order.len() && order[k] == i
    &&& forall|k: int, l: int| 0 <= k < l < order.len() ==> ranks_before(
            score_of(items, query, order[k] as int)->Some_0, order[k] as int,
            score_of(items, query, order[l] as int)->Some_0, order[l] as int)
}

/// The indices `0..n` in order.
pub open spec fn all_indices(n: nat) -> Seq<usize> {
    Seq::new(n, |i: int| i as usize)
}

/// The items to show for a search query: all of them in list order when the query is
/// blank, else those the fuzzy matcher matches, best first.
pub fn filter_items(items: &Vec<ItemWithStock>, query: &str) -> (res: Vec<usize>)
    ensures
        is_blank(query@) ==> res@ == all_indices(items@.len()),
        !is_blank(query@) ==> is_fuzzy_order(items@, query@, res@),
{
    let n = items.len();
    if str_is_blank(query) {
        let mut all: Vec<usize> = Vec::new();
        let mut i: usize = 0;
        while i < n
            invariant
                n == items@.len(),
                i <= n,
                all@ == all_indices(i as nat),
            decreases n - i,
        {
            all.push(i);
            assert(all@ =~= all_indices((i + 1) as nat));
            i = i + 1;
        }
        return all;
    }
    let mut scored: Vec<(usize, i64)> = Vec::new();
    let mut i: usize = 0;
    while i < n
        invariant
            n == items@.len(),
            i <= n,
            forall|k: int| 0 <= k < scored@.len() ==> (#[trigger] scored@[k]).0 < i
                && score_of(items@, query@, scored@[k].0 as int) == Some(scored@[k].1),
            forall|j: int| 0 <= j < i && (#[trigger] score_of(items@, query@, j)) is Some
                ==> exists|k: int| 0 <= k < scored@.len() && scored@[k].0 == j,
            forall|k: int, l: int| 0 <= k < l < scored@.len() ==>
                ranks_before(scored@[k].1, scored@[k].0 as int, scored@[l].1, scored@[l].0 as int),
        decreases n - i,
    {
        let entry = &items[i];
        let mut hay = String::new();
        push_str(&mut hay, entry.item.sku.0.as_str());
        push_str(&mut hay, " ");
        push_str(&mut hay, entry.item.name.as_str());
        let score = fuzzy_score(hay.as_str(), query);
        proof {
            assert(hay@ =~= haystack(items@[i as int]));
        }
        match score {
            Some(s) => {
                let mut p: usize = 0;
                while p < scored.len() && scored[p].1 >= s
                    invariant
                        p <= scored@.len(),
                        forall|k: int| 0 <= k < p ==> (#[trigger] scored@[k]).1 >= s,
                    decreases scored@.len() - p,
                {
                    p = p + 1;
                }
                let ghost before = scored@;
                scored.insert(p, (i, s));
                proof {
                    before.insert_ensures(p as int, (i, s));
                    assert forall|k: int, l: int| 0 <= k < l < scored@.len() implies
                        ranks_before(scored@[k].1, scored@[k].0 as int, scored@[l].1, scored@[l].0 as int) by {
                        if l < p {
                        } else if l == p {
                            assert(scored@[k] == before[k]);
                        } else if k < p {
                            assert(scored@[l] == before[l - 1]);
                            assert(scored@[k] == before[k]);
                            if (k as int) < (p as int) && p < before.len() {
                                assert(before[p as int].1 < s);
                            }
                        } else if k == p {
                            assert(scored@[l] == before[l - 1]);
                            if p < before.len() {
                                assert(before[p as int].1 < s);
                                if l - 1 > p {
                                    assert(ranks_before(before[p as int].1, before[p as int].0 as int, before[l - 1].1, before[l - 1].0 as int));
                                }
                            }
                        } else {
                            assert(scored@[l] == before[l - 1]);
                            assert(scored@[k] == before[k - 1]);
                        }
                    }
                    assert forall|j: int| 0 <= j < i + 1 && (#[trigger] score_of(items@, query@, j)) is Some
                        implies exists|k: int| 0 <= k < scored@.len() && scored@[k].0 == j by {
                        if j == i {
                            assert(scored@[p as int].0 == j);
                        } else {
                            let k0 = choose|k: int| 0 <= k < before.len() && before[k].0 == j;
                            if k0 < p {
                                assert(scored@[k0].0 == j);
                            } else {
                                assert(scored@[k0 + 1].0 == j);
                            }
                        }
                    }
                }
            },
            None => {},
        }
        i = i + 1;
    }
    let mut order: Vec<usize> = Vec::new();
    let mut k: usize = 0;
    while k < scored.len()
        invariant
            k <= scored@.len(),
            order@.len() == k,
            forall|t: int| 0 <= t < k ==> order@[t] == (#[trigger] scored@[t]).0,
        decreases scored@.len() - k,
    {
        order.push(scored[k].0);
        k = k + 1;
    }
    proof {
        assert forall|j: int| 0 <= j < items@.len() && (#[trigger] score_of(items@, query@, j)) is Some
            implies exists|t: int| 0 <= t < order@.len() && order@[t] == j by {
            let t = choose|t: int| 0 <= t < scored@.len() && scored@[t].0 == j;
            assert(order@[t] == j);
        }
        assert forall|t: int| 0 <= t < order@.len() implies (#[trigger] order@[t]) < items@.len()
            && score_of(items@, query@, order@[t] as int) is Some by {
            assert(scored@[t].0 == order@[t]);
        }
        assert forall|a: int, b: int| 0 <= a < b < order@.len() implies ranks_before(
            score_of(items@, query@, order@[a] as int)->Some_0, order@[a] as int,
            score_of(items@, query@, order@[b] as int)->Some_0, order@[b] as int) by {
            assert(scored@[a].0 == order@[a]);
            assert(scored@[b].0 == order@[b]);
        }
    }
    order
}

} // verus!
