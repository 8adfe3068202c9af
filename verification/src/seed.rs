//! What an empty database is given at start-up, and the listing the low-stock report
//! prints.
use vstd::prelude::*;
use crate::category::{name_length_ok, Category, CategoryName};
use crate::ids::{CategoryId, WarehouseId};
use crate::item::ItemFilter;
use crate::storage::inputs::{CreateCategoryInput, CreateWarehouseInput};
use crate::text::copy_str;
use crate::warehouse::{Warehouse, WarehouseName};

verus! {

/// The category to create when there are none: "General", described as
/// "Default category". Nothing is created when one exists.
pub fn default_category_input(existing: &Vec<Category>) -> (res: Option<CreateCategoryInput>)
    ensures
        res is Some <==> existing@.len() == 0,
        res matches Some(input) ==> input.name.0@ == "General"@
            && (input.description matches Some(d) && d@ == "Default category"@),
{
    if existing.len() > 0 {
        return None;
    }
    proof {
        reveal_strlit("General");
        assert(name_length_ok("General"@));
    }
    let name = match CategoryName::parse("General") {
        Ok(n) => n,
        Err(_) => {
            return None;
        },
    };
    Some(CreateCategoryInput {
        id: CategoryId::new(),
        name,
        description: Some(copy_str("Default category")),
    })
}

/// The warehouse to create when there are none: "Main", with no location. Nothing is
/// created when one exists.
pub fn default_warehouse_input(existing: &Vec<Warehouse>) -> (res: Option<CreateWarehouseInput>)
    ensures
        res is Some <==> existing@.len() == 0,
        res matches Some(input) ==> input.name.0@ == "Main"@ && input.location is None,
{
    if existing.len() > 0 {
        return None;
    }
    proof {
        reveal_strlit("Main");
        assert(name_length_ok("Main"@));
    }
    let name = match WarehouseName::parse("Main") {
        Ok(n) => n,
        Err(_) => {
            return None;
        },
    };
    Some(CreateWarehouseInput { id: WarehouseId::new(), name, location: None })
}

/// The listing behind the low-stock report: the items below their reorder threshold,
/// in any category, first page of 500.
pub fn low_stock_filter() -> (f: ItemFilter)
    ensures
        f.below_threshold_only,
        f.category_id is None,
        f.search_text is None,
        f.sku_prefix is None,
        f.limit == 500,
        f.offset == 0,
{
    ItemFilter { below_threshold_only: true, ..ItemFilter::default() }
}

} // verus!
