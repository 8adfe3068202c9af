//! Catalogue items, list filters and items with their total stock.
use vstd::prelude::*;
use crate::ids::{CategoryId, ItemId};
use crate::money::Money;
use crate::sku::Sku;

verus! {

/// A catalogue item.
#[derive(Debug)]
pub struct Item {
    pub id: ItemId,
    pub sku: Sku,
    pub name: String,
    pub description: Option<String>,
    pub category_id: CategoryId,
    pub unit_cost: Money,
    pub reorder_threshold: i64,
}

/// Which items a listing returns, and which page of them.
#[derive(Debug)]
pub struct ItemFilter {
    pub category_id: Option<CategoryId>,
    pub below_threshold_only: bool,
    pub search_text: Option<String>,
    pub sku_prefix: Option<String>,
    pub limit: u32,
    pub offset: u32,
}

impl Default for ItemFilter {
    /// No restriction; the first page of 500 items.
    fn default() -> (f: Self)
        ensures
            f.category_id is None,
            !f.below_threshold_only,
            f.search_text is None,
            f.sku_prefix is None,
            f.limit == 500,
            f.offset == 0,
    {
        ItemFilter {
            category_id: None,
            below_threshold_only: false,
            search_text: None,
            sku_prefix: None,
            limit: 500,
            offset: 0,
        }
    }
}

/// An item with its stock quantity summed over all warehouses.
#[derive(Debug)]
pub struct ItemWithStock {
    pub item: Item,
    pub qty: i64,
}

impl ItemWithStock {
    /// An item that has no stock recorded yet.
    pub fn from_item(item: Item) -> (res: Self)
        ensures
            res.item == item,
            res.qty == 0,
    {
        ItemWithStock { item, qty: 0 }
    }

    /// The item's total stock is under its reorder threshold.
    pub open spec fn is_low(&self) -> bool {
        self.qty < self.item.reorder_threshold
    }
}

} // verus!
