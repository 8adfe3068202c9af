//! The inputs of the repositories' create and update operations.
use vstd::prelude::*;
use crate::category::CategoryName;
use crate::ids::{CategoryId, ItemId, WarehouseId};
use crate::money::Money;
use crate::sku::Sku;
use crate::warehouse::WarehouseName;

verus! {

/// A new category.
#[derive(Debug)]
pub struct CreateCategoryInput {
    pub id: CategoryId,
    pub name: CategoryName,
    pub description: Option<String>,
}

/// Changes to a category; `None` leaves a field as it is.
#[derive(Debug)]
pub struct UpdateCategoryInput {
    pub id: CategoryId,
    pub name: Option<CategoryName>,
    pub description: Option<String>,
}

/// A new item.
#[derive(Debug)]
pub struct CreateItemInput {
    pub id: ItemId,
    pub sku: Sku,
    pub name: String,
    pub description: Option<String>,
    pub category_id: CategoryId,
    pub unit_cost: Money,
    pub reorder_threshold: u32,
}

/// Changes to an item; `None` leaves a field as it is.
#[derive(Debug)]
pub struct UpdateItemInput {
    pub id: ItemId,
    pub name: Option<String>,
    pub description: Option<String>,
    pub category_id: Option<CategoryId>,
    pub unit_cost: Option<Money>,
    pub reorder_threshold: Option<u32>,
}

/// A new warehouse.
#[derive(Debug)]
pub struct CreateWarehouseInput {
    pub id: WarehouseId,
    pub name: WarehouseName,
    pub location: Option<String>,
}

/// Changes to a warehouse; `None` leaves a field as it is.
#[derive(Debug)]
pub struct UpdateWarehouseInput {
    pub id: WarehouseId,
    pub name: Option<WarehouseName>,
    pub location: Option<String>,
}

} // verus!
