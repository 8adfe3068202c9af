use stash::category::CategoryName;
use stash::ids::{CategoryId, ItemId, MovementId, WarehouseId};
use stash::warehouse::WarehouseName;
use stash::money::Money;
use stash::sku::Sku;
use stash::stock::{StockLevel, StockMovement};
use stash::{CoreError, ValidationError};

#[test]
fn insufficient_stock_error_includes_quantities() {
    let err = CoreError::InsufficientStock { requested: 20, available: 2 };
    assert_eq!(err.to_string(), "insufficient stock: requested 20, available 2");
}

#[test]
fn round_trip_string_conversion() {
    let id = ItemId::new();
    let s: String = id.to_string();
    let parsed = ItemId::try_from(s).unwrap();
    assert_eq!(id, parsed);
}

#[test]
fn invalid_string_errors() {
    assert!(ItemId::try_from("not-a-uuid".to_string()).is_err());
}

#[test]
fn checked_add_succeeds_within_range() {
    let a = Money(100);
    let b = Money(50);
    assert_eq!(a.checked_add(&b).unwrap().0, 150)
}

#[test]
fn checked_add_fails_on_overflow() {
    let a = Money(i64::MAX);
    let b = Money(1);
    assert!(a.checked_add(&b).is_none());
}

#[test]
fn accepts_valid_sku_and_uppercases() {
    let sku = Sku::parse("abc-123").unwrap();
    assert_eq!(sku.0, "ABC-123")
}

#[test]
fn rejects_too_short() {
    let sku = Sku::parse("ab");
    assert!(sku.is_err())
}

#[test]
fn rejects_too_long() {
    let str = "A".repeat(21);
    let sku = Sku::parse(&str);
    assert!(sku.is_err())
}

#[test]
fn rejects_invalid_characters() {
    assert!(Sku::parse("ABC_123").is_err());
    assert!(Sku::parse("ABC 123").is_err());
    assert!(Sku::parse("ABC-123?").is_err());
}

#[test]
fn boundary_lengths_are_accepted() {
    assert!(Sku::parse("ABC").is_ok());
    assert!(Sku::parse(&"A".repeat(20)).is_ok());
}

fn fixture(qty: u32) -> StockLevel {
    StockLevel { item_id: ItemId::new(), warehouse_id: WarehouseId::new(), quantity: qty }
}

#[test]
fn inbound_increases_quantity() {
    let stock = fixture(10);
    let movement = StockMovement::Inbound { qty: 5, reason: "restock".to_string() };
    let result = stock.apply(&movement).unwrap();
    assert_eq!(result.quantity, 15);
}

#[test]
fn outbound_decreases_quantity() {
    let stock = fixture(20);
    let movement = StockMovement::Outbound { qty: 9, reason: "sale".to_string() };
    let result = stock.apply(&movement).unwrap();
    assert_eq!(result.quantity, 11);
}

#[test]
fn outbound_beyond_stock_errors() {
    let stock = fixture(3);
    let movement = StockMovement::Outbound { qty: 19, reason: "sale".to_string() };
    let result = stock.apply(&movement);
    assert!(result.is_err());
}

#[test]
fn adjustment_negative_within_bounds() {
    let stock = fixture(30);
    let movement = StockMovement::Adjustment { delta: -3, reason: "damage".to_string() };
    let result = stock.apply(&movement).unwrap();
    assert_eq!(result.quantity, 27);
}

#[test]
fn adjustment_below_zero_errors() {
    let stock = fixture(2);
    let movement = StockMovement::Adjustment { delta: -3, reason: "damage".to_string() };
    let result = stock.apply(&movement);
    assert!(result.is_err());
}

#[test]
fn is_below_threshold_works() {
    let stock = fixture(5);
    assert!(stock.is_below_threshold(10));
    assert!(!stock.is_below_threshold(3));
}

// ---- further cases ----

#[test]
fn id_text_is_hyphenated_lowercase() {
    let id = ItemId(0x0123456789ABCDEF0123456789ABCDEF);
    assert_eq!(id.to_string(), "01234567-89ab-cdef-0123-456789abcdef");
}

#[test]
fn sku_error_kinds() {
    assert!(matches!(Sku::parse("AB_C"), Err(ValidationError::InvalidSkuFormat(s)) if s == "AB_C"));
    assert!(matches!(Sku::parse("AB"), Err(ValidationError::InvalidSkuLength(2))));
    assert!(matches!(Sku::parse("ab"), Err(ValidationError::InvalidSkuLength(2))));
}

#[test]
fn sku_parse_is_idempotent() {
    let first = Sku::parse("aBc-9z").unwrap();
    let again = Sku::parse(&first.0).unwrap();
    assert_eq!(first.0, again.0);
    assert_eq!(again.0, "ABC-9Z");
}

#[test]
fn category_and_warehouse_name_bounds() {
    assert!(CategoryName::parse("abc").is_ok());
    assert!(matches!(CategoryName::parse("ab"), Err(ValidationError::InvalidCategoryNameLength(2))));
    assert!(CategoryName::parse(&"x".repeat(200)).is_ok());
    assert!(matches!(CategoryName::parse(&"x".repeat(201)), Err(ValidationError::InvalidCategoryNameLength(201))));
    // counted in characters: two euro signs are six bytes but two characters
    assert!(matches!(WarehouseName::parse("€€"), Err(ValidationError::InvalidWarehouseNameLength(2))));
    assert!(matches!(CategoryName::parse("€€"), Err(ValidationError::InvalidCategoryNameLength(2))));
    assert!(WarehouseName::parse("€€€").is_ok());
    assert!(CategoryName::parse(&"é".repeat(200)).is_ok());
    assert!(matches!(CategoryName::parse(&"é".repeat(201)), Err(ValidationError::InvalidCategoryNameLength(201))));
    assert_eq!(WarehouseName::parse("Main").unwrap().0, "Main");
}

#[test]
fn error_messages() {
    assert_eq!(
        CoreError::InsufficientStock { requested: 20, available: 2 }.message(),
        "Not enough stock: you asked for 20 but only 2 is available."
    );
    assert_eq!(CoreError::QuantityOverflow.message(), "That quantity is too large.");
    assert_eq!(CoreError::QuantityOverflow.to_string(), "quantity overflow");
    assert_eq!(CoreError::InvalidSku("x".into()).message(), "'x' isn't a valid SKU.");
    assert_eq!(CoreError::InvalidMovementKind("x".into()).to_string(), "invalid movement kind: x");
    assert_eq!(ValidationError::InvalidSkuLength(25).message(), "SKU must be 3–20 characters (got 25).");
    assert_eq!(ValidationError::MissingField("name").message(), "name is required.");
    assert_eq!(ValidationError::MissingField("name").to_string(), "missing required field: name");
    assert_eq!(
        ValidationError::InvalidCategoryNameLength(0).message(),
        "Category name must be 3–200 characters (got 0)."
    );
    assert_eq!(ValidationError::InvalidWarehouseNameLength(1000).to_string(), "invalid warehouse name length: 1000");
}

#[test]
fn inbound_overflow_errors() {
    let stock = fixture(u32::MAX);
    let m = StockMovement::Inbound { qty: 1, reason: String::new() };
    assert!(matches!(stock.apply(&m), Err(CoreError::QuantityOverflow)));
}

#[test]
fn adjustment_past_max_is_insufficient_stock() {
    let stock = fixture(u32::MAX);
    let m = StockMovement::Adjustment { delta: 1, reason: String::new() };
    assert!(matches!(stock.apply(&m), Err(CoreError::InsufficientStock { requested: 1, available: u32::MAX })));
}

#[test]
fn outbound_error_carries_quantities() {
    let stock = fixture(3);
    let m = StockMovement::Outbound { qty: 19, reason: String::new() };
    assert!(matches!(stock.apply(&m), Err(CoreError::InsufficientStock { requested: 19, available: 3 })));
}

#[test]
fn inbound_then_outbound_restores_level() {
    let stock = fixture(7);
    let up = stock.apply(&StockMovement::Inbound { qty: 5, reason: "in".into() }).unwrap();
    let down = up.apply(&StockMovement::Outbound { qty: 5, reason: "out".into() }).unwrap();
    assert_eq!(down.quantity, 7);
    assert_eq!(down.item_id, stock.item_id);
    assert_eq!(down.warehouse_id, stock.warehouse_id);
}

#[test]
fn movement_columns_round_trip() {
    for m in [
        StockMovement::Inbound { qty: 50, reason: "Restock".into() },
        StockMovement::Outbound { qty: 20, reason: "Sale".into() },
        StockMovement::Adjustment { delta: -4, reason: "damage".into() },
    ] {
        let back = StockMovement::from_parts(m.kind_str(), m.quantity_delta(), Some(m.reason().to_string())).unwrap();
        assert_eq!(back.kind_str(), m.kind_str());
        assert_eq!(back.quantity_delta(), m.quantity_delta());
        assert_eq!(back.reason(), m.reason());
    }
}

#[test]
fn from_parts_errors() {
    assert!(matches!(StockMovement::from_parts("teleport", 1, None), Err(CoreError::InvalidMovementKind(k)) if k == "teleport"));
    assert!(matches!(StockMovement::from_parts("inbound", -1, None), Err(CoreError::QuantityOverflow)));
    assert!(matches!(StockMovement::from_parts("outbound", 1, None), Err(CoreError::QuantityOverflow)));
    assert!(matches!(StockMovement::from_parts("adjustment", i64::from(i32::MAX) + 1, None), Err(CoreError::QuantityOverflow)));
    let m = StockMovement::from_parts("outbound", -3, None).unwrap();
    assert!(matches!(m, StockMovement::Outbound { qty: 3, ref reason } if reason.is_empty()));
    assert_eq!(m.quantity_delta(), -3);
    assert_eq!(m.kind_str(), "outbound");
}

#[test]
fn new_ids_are_version_four_uuids() {
    let values = [ItemId::new().0, CategoryId::new().0, WarehouseId::new().0, MovementId::new().0];
    for v in values {
        assert_eq!((v >> 76) & 0xf, 4);
        assert_eq!((v >> 62) & 0x3, 2);
    }
    assert_ne!(ItemId::new(), ItemId::new());
}
