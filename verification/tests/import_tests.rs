use stash::category::{Category, CategoryName};
use stash::config::{Config, ThemeChoice};
use stash::ids::CategoryId;
use stash::import::{
    pending_item_input, plan_row, row_number, unreadable_row_reason, ImportRow, ImportSummary, RowOutcome, RowPlan,
};
use stash::money::Money;

fn row(sku: &str, category: &str) -> ImportRow {
    ImportRow {
        sku: sku.to_string(),
        name: "Lamp".to_string(),
        description: Some("Desk lamp".to_string()),
        category: category.to_string(),
        unit_cost_kobo: 1500,
        reorder_threshold: 3,
    }
}

fn known() -> Vec<Category> {
    vec![Category { id: CategoryId(9), name: CategoryName::parse("General").unwrap(), description: None, created_at: 0 }]
}

#[test]
fn bad_sku_skips_with_message() {
    match plan_row(row("a_b", "General"), &known()) {
        RowPlan::Skip(r) => assert_eq!(r, "SKU can only contain letters, numbers, and hyphens."),
        other => panic!("{other:?}"),
    }
    match plan_row(row("ab", "General"), &known()) {
        RowPlan::Skip(r) => assert_eq!(r, "SKU must be 3–20 characters (got 2)."),
        other => panic!("{other:?}"),
    }
}

#[test]
fn known_category_matches_ignoring_case() {
    match plan_row(row("lmp-1", "gENERAL"), &known()) {
        RowPlan::Item(input) => {
            assert_eq!(input.sku.0, "LMP-1");
            assert_eq!(input.category_id, CategoryId(9));
            assert_eq!(input.unit_cost, Money(1500));
            assert_eq!(input.reorder_threshold, 3);
            assert_eq!(input.description.as_deref(), Some("Desk lamp"));
        }
        other => panic!("{other:?}"),
    }
}

#[test]
fn unknown_category_is_created_or_skipped() {
    match plan_row(row("lmp-1", "Lighting"), &known()) {
        RowPlan::NewCategory(name, pending) => {
            assert_eq!(name.0, "Lighting");
            let input = pending_item_input(pending, CategoryId(4));
            assert_eq!(input.category_id, CategoryId(4));
            assert_eq!(input.name, "Lamp");
        }
        other => panic!("{other:?}"),
    }
    match plan_row(row("lmp-1", "Li"), &known()) {
        RowPlan::Skip(r) => assert_eq!(r, "Category name must be 3–200 characters (got 2)."),
        other => panic!("{other:?}"),
    }
}

#[test]
fn summary_and_row_numbers() {
    let mut s = ImportSummary::new();
    s.record_imported();
    s.record_skipped(row_number(1), unreadable_row_reason("bad"));
    assert_eq!(s.imported, 1);
    assert_eq!(s.skipped, vec![(3, "couldn't parse row: bad".to_string())]);
}

#[test]
fn cli_flags_override_config() {
    let c = Config::default();
    assert_eq!(c.db_path, "stash.db");
    assert_eq!(c.tick_rate_ms, 100);
    assert_eq!(c.theme, ThemeChoice::Dark);
    let c = c.with_overrides(Some("other.db".into()), None);
    assert_eq!(c.db_path, "other.db");
    assert_eq!(c.tick_rate_ms, 100);
    let c = c.with_overrides(None, Some(250));
    assert_eq!(c.db_path, "other.db");
    assert_eq!(c.tick_rate_ms, 250);
}

#[test]
fn every_row_is_counted_once() {
    let mut s = ImportSummary::new();
    let outcomes = vec![
        RowOutcome::Imported,
        RowOutcome::Skipped("SKU must be between 3 and 20 characters, got 2".to_string()),
        RowOutcome::Imported,
        RowOutcome::Skipped(unreadable_row_reason("missing field")),
    ];
    let n = outcomes.len();
    for (idx, outcome) in outcomes.into_iter().enumerate() {
        s.record_row(row_number(idx), outcome);
    }
    assert_eq!(s.imported + s.skipped.len(), n);
    assert_eq!(s.imported, 2);
    assert_eq!(s.skipped[0].0, 3);
    assert_eq!(s.skipped[1], (5, "couldn't parse row: missing field".to_string()));
}
