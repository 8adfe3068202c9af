//! Finding, replacing and dropping entries of the loaded lists by identifier.
use vstd::prelude::*;
use crate::category::Category;
use crate::ids::{CategoryId, ItemId, WarehouseId};
use crate::item::ItemWithStock;
use crate::warehouse::Warehouse;

verus! {

/// The index of the first entry of `s` that satisfies `p`.
pub open spec fn index_where<T>(s: Seq<T>, p: spec_fn(T) -> bool) -> Option<int>
    decreases s.len(),
{
    if s.len() == 0 {
        None
    } else if p(s[0]) {
        Some(0)
    } else {
        match index_where(s.drop_first(), p) {
            Some(i) => Some(i + 1),
            None => None,
        }
    }
}

/// `s` with its first entry satisfying `p` replaced by `v`, or with `v` appended where
/// no entry satisfies `p`.
pub open spec fn upserted<T>(s: Seq<T>, p: spec_fn(T) -> bool, v: T) -> Seq<T> {
    match index_where(s, p) {
        Some(i) => s.update(i, v),
        None => s.push(v),
    }
}

/// `s` without the entries that satisfy `p`, the others kept in order.
pub open spec fn without<T>(s: Seq<T>, p: spec_fn(T) -> bool) -> Seq<T>
    decreases s.len(),
{
    if s.len() == 0 {
        s
    } else if p(s.last()) {
        without(s.drop_last(), p)
    } else {
        without(s.drop_last(), p).push(s.last())
    }
}

/// The entry is the item with identifier `id`.
pub open spec fn is_item(id: ItemId) -> spec_fn(ItemWithStock) -> bool {
    |e: ItemWithStock| e.item.id == id
}

/// The entry is the category with identifier `id`.
pub open spec fn is_category(id: CategoryId) -> spec_fn(Category) -> bool {
    |c: Category| c.id == id
}

/// The entry is the warehouse with identifier `id`.
pub open spec fn is_warehouse(id: WarehouseId) -> spec_fn(Warehouse) -> bool {
    |w: Warehouse| w.id == id
}

/// When no entry before `i` satisfies `p`, the first one that does is at `i` if `s[i]`
/// does, and there is none if `i` is the end.
pub proof fn lemma_index_where<T>(s: Seq<T>, p: spec_fn(T) -> bool, i: int)
    requires
        0 <= i <= s.len(),
        forall|j: int| 0 <= j < i ==> !p(#[trigger] s[j]),
    ensures
        i < s.len() && p(s[i]) ==> index_where(s, p) == Some(i),
        i == s.len() ==> index_where(s, p) is None,
    decreases i,
{
    if i > 0 {
        let t = s.drop_first();
        assert forall|j: int| 0 <= j < i - 1 implies !p(#[trigger] t[j]) by {
            assert(t[j] == s[j + 1]);
        }
        lemma_index_where(t, p, i - 1);
        if i < s.len() {
            assert(t[i - 1] == s[i]);
        }
    }
}

/// The index of the first entry that is the item `id`.
pub fn find_item(items: &Vec<ItemWithStock>, id: ItemId) -> (res: Option<usize>)
    ensures
        match res {
            Some(i) => index_where(items@, is_item(id)) == Some(i as int),
            None => index_where(items@, is_item(id)) is None,
        },
{
    let n = items.len();
    let mut i: usize = 0;
    while i < n
        invariant
            n == items@.len(),
            i <= n,
            forall|j: int| 0 <= j < i ==> !is_item(id)(#[trigger] items@[j]),
        decreases n - i,
    {
        if items[i].item.id == id {
            proof { lemma_index_where(items@, is_item(id), i as int); }
            return Some(i);
        }
        i = i + 1;
    }
    proof { lemma_index_where(items@, is_item(id), i as int); }
    None
}

/// The index of the first entry that is the category `id`.
pub fn find_category(categories: &Vec<Category>, id: CategoryId) -> (res: Option<usize>)
    ensures
        match res {
            Some(i) => index_where(categories@, is_category(id)) == Some(i as int),
            None => index_where(categories@, is_category(id)) is None,
        },
{
    let n = categories.len();
    let mut i: usize = 0;
    while i < n
        invariant
            n == categories@.len(),
            i <= n,
            forall|j: int| 0 <= j < i ==> !is_category(id)(#[trigger] categories@[j]),
        decreases n - i,
    {
        if categories[i].id == id {
            proof { lemma_index_where(categories@, is_category(id), i as int); }
            return Some(i);
        }
        i = i + 1;
    }
    proof { lemma_index_where(categories@, is_category(id), i as int); }
    None
}

/// The index of the first entry that is the warehouse `id`.
pub fn find_warehouse(warehouses: &Vec<Warehouse>, id: WarehouseId) -> (res: Option<usize>)
    ensures
        match res {
            Some(i) => index_where(warehouses@, is_warehouse(id)) == Some(i as int),
            None => index_where(warehouses@, is_warehouse(id)) is None,
        },
{
    let n = warehouses.len();
    let mut i: usize = 0;
    while i < n
        invariant
            n == warehouses@.len(),
            i <= n,
            forall|j: int| 0 <= j < i ==> !is_warehouse(id)(#[trigger] warehouses@[j]),
        decreases n - i,
    {
        if warehouses[i].id == id {
            proof { lemma_index_where(warehouses@, is_warehouse(id), i as int); }
            return Some(i);
        }
        i = i + 1;
    }
    proof { lemma_index_where(warehouses@, is_warehouse(id), i as int); }
    None
}

/// Replaces the entry for the item `v` in place, or appends `v`.
pub fn upsert_item(items: &mut Vec<ItemWithStock>, v: ItemWithStock)
    ensures
        final(items)@ == upserted(old(items)@, is_item(v.item.id), v),
{
    match find_item(items, v.item.id) {
        Some(i) => {
            proof { lemma_index_where_spec(items@, is_item(v.item.id)); }
            items.set(i, v);
        },
        None => { items.push(v); },
    }
}

/// Replaces the entry for the category `c` in place, or appends `c`.
pub fn upsert_category(categories: &mut Vec<Category>, c: Category)
    ensures
        final(categories)@ == upserted(old(categories)@, is_category(c.id), c),
{
    match find_category(categories, c.id) {
        Some(i) => {
            proof { lemma_index_where_spec(categories@, is_category(c.id)); }
            categories.set(i, c);
        },
        None => { categories.push(c); },
    }
}

/// Replaces the entry for the warehouse `w` in place, or appends `w`.
pub fn upsert_warehouse(warehouses: &mut Vec<Warehouse>, w: Warehouse)
    ensures
        final(warehouses)@ == upserted(old(warehouses)@, is_warehouse(w.id), w),
{
    match find_warehouse(warehouses, w.id) {
        Some(i) => {
            proof { lemma_index_where_spec(warehouses@, is_warehouse(w.id)); }
            warehouses.set(i, w);
        },
        None => { warehouses.push(w); },
    }
}

/// Drops every entry for the item `id`.
pub fn remove_item(items: &mut Vec<ItemWithStock>, id: ItemId)
    ensures
        final(items)@ == without(old(items)@, is_item(id)),
{
    let ghost orig = items@;
    let mut rest: Vec<ItemWithStock> = Vec::new();
    std::mem::swap(&mut rest, items);
    let n = rest.len();
    let mut k: usize = 0;
    assert(orig.take(0) =~= Seq::<ItemWithStock>::empty());
    assert(orig.skip(0) =~= orig);
    while k < n
        invariant
            n == orig.len(),
            k <= n,
            rest@ == orig.skip(k as int),
            items@ == without(orig.take(k as int), is_item(id)),
        decreases n - k,
    {
        let e = rest.remove(0);
        proof {
            assert(orig.take(k + 1).drop_last() =~= orig.take(k as int));
            assert(orig.take(k + 1).last() == orig[k as int]);
            assert(rest@ =~= orig.skip(k + 1));
        }
        if e.item.id != id {
            items.push(e);
        }
        k = k + 1;
    }
    assert(orig.take(n as int) =~= orig);
}

/// Drops every entry for the category `id`.
pub fn remove_category(categories: &mut Vec<Category>, id: CategoryId)
    ensures
        final(categories)@ == without(old(categories)@, is_category(id)),
{
    let ghost orig = categories@;
    let mut rest: Vec<Category> = Vec::new();
    std::mem::swap(&mut rest, categories);
    let n = rest.len();
    let mut k: usize = 0;
    assert(orig.take(0) =~= Seq::<Category>::empty());
    assert(orig.skip(0) =~= orig);
    while k < n
        invariant
            n == orig.len(),
            k <= n,
            rest@ == orig.skip(k as int),
            categories@ == without(orig.take(k as int), is_category(id)),
        decreases n - k,
    {
        let c = rest.remove(0);
        proof {
            assert(orig.take(k + 1).drop_last() =~= orig.take(k as int));
            assert(orig.take(k + 1).last() == orig[k as int]);
            assert(rest@ =~= orig.skip(k + 1));
        }
        if c.id != id {
            categories.push(c);
        }
        k = k + 1;
    }
    assert(orig.take(n as int) =~= orig);
}

/// Drops every entry for the warehouse `id`.
pub fn remove_warehouse(warehouses: &mut Vec<Warehouse>, id: WarehouseId)
    ensures
        final(warehouses)@ == without(old(warehouses)@, is_warehouse(id)),
{
    let ghost orig = warehouses@;
    let mut rest: Vec<Warehouse> = Vec::new();
    std::mem::swap(&mut rest, warehouses);
    let n = rest.len();
    let mut k: usize = 0;
    assert(orig.take(0) =~= Seq::<Warehouse>::empty());
    assert(orig.skip(0) =~= orig);
    while k < n
        invariant
            n == orig.len(),
            k <= n,
            rest@ == orig.skip(k as int),
            warehouses@ == without(orig.take(k as int), is_warehouse(id)),
        decreases n - k,
    {
        let w = rest.remove(0);
        proof {
            assert(orig.take(k + 1).drop_last() =~= orig.take(k as int));
            assert(orig.take(k + 1).last() == orig[k as int]);
            assert(rest@ =~= orig.skip(k + 1));
        }
        if w.id != id {
            warehouses.push(w);
        }
        k = k + 1;
    }
    assert(orig.take(n as int) =~= orig);
}

/// After dropping every entry that satisfies `p`, none is left that does.
pub proof fn law_without_removes_all<T>(s: Seq<T>, p: spec_fn(T) -> bool)
    ensures
        forall|j: int| 0 <= j < without(s, p).len() ==> !p(#[trigger] without(s, p)[j]),
        without(s, p).len() <= s.len(),
    decreases s.len(),
{
    if s.len() > 0 {
        law_without_removes_all(s.drop_last(), p);
    }
}

/// After an upsert there is exactly one place where the value sits: the first entry
/// satisfying `p` is the new value.
pub proof fn law_upsert_then_find<T>(s: Seq<T>, p: spec_fn(T) -> bool, v: T)
    requires
        p(v),
    ensures
        index_where(upserted(s, p, v), p) matches Some(i) && upserted(s, p, v)[i] == v,
{
    match index_where(s, p) {
        Some(i) => {
            lemma_index_where_spec(s, p);
            let u = s.update(i, v);
            assert forall|j: int| 0 <= j < i implies !p(#[trigger] u[j]) by {
                assert(u[j] == s[j]);
            }
            lemma_index_where(u, p, i);
        },
        None => {
            lemma_index_where_spec(s, p);
            let u = s.push(v);
            assert forall|j: int| 0 <= j < s.len() implies !p(#[trigger] u[j]) by {
                assert(u[j] == s[j]);
            }
            lemma_index_where(u, p, s.len() as int);
        },
    }
}

/// What `index_where` gives: an index whose entry satisfies `p` with none before it,
/// or `None` where no entry does.
pub proof fn lemma_index_where_spec<T>(s: Seq<T>, p: spec_fn(T) -> bool)
    ensures
        index_where(s, p) matches Some(i) ==> 0 <= i < s.len() && p(s[i])
            && forall|j: int| 0 <= j < i ==> !p(#[trigger] s[j]),
        index_where(s, p) is None ==> forall|j: int| 0 <= j < s.len() ==> !p(#[trigger] s[j]),
    decreases s.len(),
{
    if s.len() > 0 {
        let t = s.drop_first();
        lemma_index_where_spec(t, p);
        if !p(s[0]) {
            match index_where(t, p) {
                Some(i) => {
                    assert(t[i] == s[i + 1]);
                    assert forall|j: int| 0 <= j < i + 1 implies !p(#[trigger] s[j]) by {
                        if j > 0 { assert(s[j] == t[j - 1]); }
                    }
                },
                None => {
                    assert forall|j: int| 0 <= j < s.len() implies !p(#[trigger] s[j]) by {
                        if j > 0 { assert(s[j] == t[j - 1]); }
                    }
                },
            }
        }
    }
}

} // verus!
