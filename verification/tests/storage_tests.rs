use stash::ids::{CategoryId, ItemId, WarehouseId};
use stash::item::ItemFilter;
use stash::money::Money;
use stash::stock::StockMovement;
use stash::storage::error::{unique_violation_message, DatabaseError, DbErrorKind, DbFailure, StorageError};
use stash::storage::inputs::{UpdateCategoryInput, UpdateItemInput, UpdateWarehouseInput};
use stash::storage::query::{category_update_query, item_list_query, item_update_query, warehouse_update_query, SqlArg};
use stash::storage::rules::{
    check_category_deletable, movement_record_from_row, plan_stock_update, stock_level_from_row, MovementRow,
};
use stash::category::CategoryName;
use stash::warehouse::WarehouseName;
use stash::{CoreError, ValidationError};

const ITEM: &str = "67e55044-10b1-426f-9247-bb680e5fe0c8";
const WAREHOUSE: &str = "a1a2a3a4-b1b2-c1c2-d1d2-d3d4d5d6d7d8";

fn refused(kind: DbErrorKind, message: &str) -> StorageError {
    StorageError::Database(DatabaseError {
        failure: DbFailure::Refused { kind, message: message.to_string() },
        text: format!("error returned from database: {message}"),
    })
}

#[test]
fn unique_violation_names_the_column() {
    assert_eq!(
        unique_violation_message("UNIQUE constraint failed: items.sku"),
        "That SKU is already in use. Choose a different one."
    );
    assert_eq!(
        unique_violation_message("UNIQUE constraint failed: categories.name"),
        "A category with that name already exists."
    );
    assert_eq!(
        unique_violation_message("UNIQUE constraint failed: warehouses.name"),
        "A warehouse with that name already exists."
    );
    assert_eq!(unique_violation_message("UNIQUE constraint failed: x.y"), "That value is already in use.");
    assert_eq!(unique_violation_message(""), "That value is already in use.");
}

#[test]
fn duplicate_category_message_says_already_exists() {
    let err = refused(DbErrorKind::UniqueViolation, "UNIQUE constraint failed: categories.name");
    assert!(err.message().contains("already exists"));
}

#[test]
fn storage_error_messages() {
    assert_eq!(
        StorageError::NotFound(ItemId(1)).message(),
        "That item does not exist or it may have been deleted."
    );
    assert_eq!(
        StorageError::CategoryInUse(CategoryId(1)).message(),
        "This category still has items in it. Move or delete those items first."
    );
    assert_eq!(
        StorageError::WarehouseInUse(WarehouseId(1)).message(),
        "This warehouse still has stock in it. Clear its stock first."
    );
    assert_eq!(
        refused(DbErrorKind::ForeignKeyViolation, "FOREIGN KEY constraint failed").message(),
        "That references something that no longer exists (maybe a category or warehouse was deleted). Try refreshing."
    );
    assert_eq!(
        refused(DbErrorKind::CheckViolation, "CHECK constraint failed").message(),
        "That value isn't allowed (e.g. stock can't go negative)."
    );
    assert_eq!(
        refused(DbErrorKind::NotNullViolation, "NOT NULL").message(),
        "Something went wrong somewhere. Please try again."
    );
    let busy = StorageError::Database(DatabaseError { failure: DbFailure::PoolTimedOut, text: String::new() });
    assert_eq!(busy.message(), "The database is busy. Please try again in a moment.");
    let other = StorageError::Database(DatabaseError { failure: DbFailure::Other, text: "x".into() });
    assert_eq!(other.message(), "A database error occurred. Please try again.");
    assert_eq!(other.to_string(), "database error: x");
    assert_eq!(
        StorageError::MigrateError("bad".into()).message(),
        "Failed to set up the database. Please restart the app."
    );
    assert_eq!(StorageError::MigrateError("bad".into()).to_string(), "database migration error: bad");
    assert_eq!(StorageError::Core(CoreError::QuantityOverflow).message(), "That quantity is too large.");
    assert_eq!(StorageError::Validation(ValidationError::MissingField("sku")).message(), "sku is required.");
    assert_eq!(
        StorageError::NotFound(ItemId(0x67e5504410b1426f9247bb680e5fe0c8)).to_string(),
        "item not found: ItemId(67e55044-10b1-426f-9247-bb680e5fe0c8)"
    );
}

#[test]
fn stock_row_reads_into_level() {
    let level = stock_level_from_row(ITEM.into(), WAREHOUSE.into(), 42).unwrap();
    assert_eq!(level.item_id, ItemId(0x67e5504410b1426f9247bb680e5fe0c8));
    assert_eq!(level.warehouse_id, WarehouseId(0xa1a2a3a4b1b2c1c2d1d2d3d4d5d6d7d8));
    assert_eq!(level.quantity, 42);
    assert_eq!(stock_level_from_row(ITEM.into(), WAREHOUSE.into(), -5).unwrap().quantity, 0);
    assert_eq!(stock_level_from_row(ITEM.into(), WAREHOUSE.into(), 1 << 40).unwrap().quantity, 0);
}

#[test]
fn stock_row_with_bad_ids_is_a_decoding_error() {
    let e = stock_level_from_row("nope".into(), WAREHOUSE.into(), 1).unwrap_err();
    assert_eq!(e.to_string(), "database error: error occurred while decoding: invalid item id");
    let e = stock_level_from_row(ITEM.into(), "nope".into(), 1).unwrap_err();
    assert_eq!(e.to_string(), "database error: error occurred while decoding: invalid warehouse id");
}

fn row(kind: &str, delta: i64, id: &str) -> MovementRow {
    MovementRow {
        id: id.to_string(),
        item_id: ITEM.to_string(),
        warehouse_id: WAREHOUSE.to_string(),
        kind: kind.to_string(),
        qty_delta: delta,
        reason: Some("Sale".to_string()),
        created_at: 1_700_000_000,
    }
}

#[test]
fn movement_row_reads_into_record() {
    let r = movement_record_from_row(row("outbound", -20, ITEM)).unwrap();
    assert!(matches!(r.movement, StockMovement::Outbound { qty: 20, ref reason } if reason == "Sale"));
    assert_eq!(r.created_at, 1_700_000_000);
    assert_eq!(r.item_id, ItemId(0x67e5504410b1426f9247bb680e5fe0c8));
}

#[test]
fn movement_row_errors_in_order() {
    assert!(matches!(
        movement_record_from_row(row("teleport", 1, "bad")),
        Err(StorageError::Core(CoreError::InvalidMovementKind(_)))
    ));
    let e = movement_record_from_row(row("inbound", 1, "bad")).unwrap_err();
    assert_eq!(e.to_string(), "database error: error occurred while decoding: invalid movement id");
}

#[test]
fn stock_update_starts_from_zero_and_applies_the_rule() {
    let item = ItemId(7);
    let wh = WarehouseId(9);
    let up = plan_stock_update(item, wh, None, &StockMovement::Inbound { qty: 50, reason: "Restock".into() }).unwrap();
    assert_eq!(up.quantity, 50);
    assert_eq!(up.item_id, item);
    assert_eq!(up.warehouse_id, wh);
    let down = plan_stock_update(item, wh, Some(up), &StockMovement::Outbound { qty: 20, reason: "Sale".into() }).unwrap();
    assert_eq!(down.quantity, 30);
    let refused = plan_stock_update(item, wh, None, &StockMovement::Outbound { qty: 1, reason: "Sale".into() });
    assert!(matches!(
        refused,
        Err(StorageError::Core(CoreError::InsufficientStock { requested: 1, available: 0 }))
    ));
}

#[test]
fn category_in_use_cannot_be_deleted() {
    let id = CategoryId(3);
    assert!(check_category_deletable(id, false).is_ok());
    assert!(matches!(check_category_deletable(id, true), Err(StorageError::CategoryInUse(c)) if c == id));
}

fn texts(args: &[SqlArg]) -> Vec<String> {
    args.iter()
        .map(|a| match a {
            SqlArg::Text(s) => s.clone(),
            SqlArg::Int(i) => i.to_string(),
        })
        .collect()
}

#[test]
fn item_list_query_for_search_text() {
    let filter = ItemFilter {
        search_text: Some("  WidGet ".into()),
        limit: 10,
        offset: 0,
        ..Default::default()
    };
    let q = item_list_query(&filter);
    assert_eq!(
        q.sql,
        "SELECT items.*, COALESCE(SUM(stock_levels.quantity), 0) AS total_quantity FROM items LEFT JOIN stock_levels ON stock_levels.item_id = items.id WHERE 1 = 1 AND (LOWER(items.name) LIKE ? OR LOWER(COALESCE(items.description, '')) LIKE ?) GROUP BY items.id LIMIT ? OFFSET ?"
    );
    assert_eq!(texts(&q.args), vec!["%widget%", "%widget%", "10", "0"]);
}

#[test]
fn item_list_query_for_category_and_low_stock() {
    let filter = ItemFilter {
        category_id: Some(CategoryId(0x67e5504410b1426f9247bb680e5fe0c8)),
        below_threshold_only: true,
        ..Default::default()
    };
    let q = item_list_query(&filter);
    assert!(q.sql.contains(" AND items.category_id = ? AND stock_levels.quantity < items.reorder_threshold GROUP BY"));
    assert_eq!(texts(&q.args), vec![ITEM, "500", "0"]);
}

#[test]
fn update_queries_bind_given_fields() {
    let q = category_update_query(&UpdateCategoryInput {
        id: CategoryId(1),
        name: Some(CategoryName::parse("New").unwrap()),
        description: None,
    });
    assert_eq!(q.sql, "UPDATE categories SET  name = ? WHERE id = ? RETURNING *");
    assert_eq!(texts(&q.args), vec!["New", "00000000-0000-0000-0000-000000000001"]);

    let q = warehouse_update_query(&UpdateWarehouseInput {
        id: WarehouseId(2),
        name: None,
        location: Some("Lagos".into()),
    });
    assert_eq!(q.sql, "UPDATE warehouses SET  location = ? WHERE id = ? RETURNING *");
    assert_eq!(texts(&q.args), vec!["Lagos", "00000000-0000-0000-0000-000000000002"]);

    let q = category_update_query(&UpdateCategoryInput {
        id: CategoryId(1),
        name: Some(CategoryName::parse("Tools").unwrap()),
        description: Some("Hand tools".into()),
    });
    assert_eq!(q.sql, "UPDATE categories SET  name = ?, description = ? WHERE id = ? RETURNING *");
    assert_eq!(texts(&q.args), vec!["Tools", "Hand tools", "00000000-0000-0000-0000-000000000001"]);

    let q = warehouse_update_query(&UpdateWarehouseInput {
        id: WarehouseId(2),
        name: Some(WarehouseName::parse("Depot").unwrap()),
        location: Some("Abuja".into()),
    });
    assert_eq!(q.sql, "UPDATE warehouses SET  name = ?, location = ? WHERE id = ? RETURNING *");

    let q = item_update_query(&UpdateItemInput {
        id: ItemId(3),
        name: Some("New Name".into()),
        description: None,
        category_id: None,
        unit_cost: Some(Money(250)),
        reorder_threshold: Some(4),
    });
    assert_eq!(
        q.sql,
        "UPDATE items SET updated_at = CURRENT_TIMESTAMP, name = ?, unit_cost = ?, reorder_threshold = ? WHERE id = ? RETURNING *"
    );
    assert_eq!(texts(&q.args), vec!["New Name", "250", "4", "00000000-0000-0000-0000-000000000003"]);
    let _ = WarehouseName::parse("Main").unwrap();
}
