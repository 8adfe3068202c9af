use stash::category::{Category, CategoryName};
use stash::ids::{CategoryId, WarehouseId};
use stash::seed::{default_category_input, default_warehouse_input, low_stock_filter};
use stash::warehouse::{Warehouse, WarehouseName};

#[test]
fn empty_database_gets_general_category() {
    let input = default_category_input(&Vec::new()).expect("a category to create");
    assert_eq!(input.name.0, "General");
    assert_eq!(input.description.as_deref(), Some("Default category"));
}

#[test]
fn existing_category_means_nothing_to_seed() {
    let existing = vec![Category {
        id: CategoryId(1),
        name: CategoryName::parse("Tools").unwrap(),
        description: None,
        created_at: 0,
    }];
    assert!(default_category_input(&existing).is_none());
}

#[test]
fn empty_database_gets_main_warehouse() {
    let input = default_warehouse_input(&Vec::new()).expect("a warehouse to create");
    assert_eq!(input.name.0, "Main");
    assert!(input.location.is_none());
    let existing = vec![Warehouse { id: WarehouseId(2), name: WarehouseName::parse("Back room").unwrap(), location: None }];
    assert!(default_warehouse_input(&existing).is_none());
}

#[test]
fn low_stock_report_lists_only_low_items() {
    let f = low_stock_filter();
    assert!(f.below_threshold_only);
    assert!(f.category_id.is_none() && f.search_text.is_none() && f.sku_prefix.is_none());
    assert_eq!((f.limit, f.offset), (500, 0));
}
