use stash::category::{Category, CategoryName};
use stash::ids::{CategoryId, ItemId, WarehouseId};
use stash::item::{Item, ItemWithStock};
use stash::money::Money;
use stash::sku::Sku;
use stash::stock::StockMovement;
use stash::tui::keys::{KeyCode, KeyKind, KeyMap, KeyPress, Action, KeyBinding};
use stash::tui::state::{AdjustKind, App, Command, InputMode, Message, PendingDelete, Screen};
use stash::tui::view::{hints_for, inventory_value, low_stock_count, recent_movement_trend};
use stash::warehouse::{Warehouse, WarehouseName};

fn key(code: KeyCode) -> Message {
    Message::KeyPressed(KeyPress { code, modifiers: 0, kind: KeyKind::Press })
}

fn typed(app: &mut App, text: &str) {
    for c in text.chars() {
        assert!(app.update(key(KeyCode::Char(c))).is_none());
    }
}

fn item(id: u128, sku: &str, name: &str, qty: i64, threshold: i64, cost: i64) -> ItemWithStock {
    ItemWithStock {
        item: Item {
            id: ItemId(id),
            sku: Sku::parse(sku).unwrap(),
            name: name.to_string(),
            description: None,
            category_id: CategoryId(1),
            unit_cost: Money(cost),
            reorder_threshold: threshold,
        },
        qty,
    }
}

fn category(id: u128, name: &str) -> Category {
    Category { id: CategoryId(id), name: CategoryName::parse(name).unwrap(), description: None, created_at: 0 }
}

#[test]
fn starts_on_dashboard_and_switches_by_digit() {
    let mut app = App::new();
    assert!(matches!(app.screen, Screen::Dashboard));
    assert!(app.update(key(KeyCode::Char('2'))).is_none());
    assert!(matches!(app.screen, Screen::ItemList));
    let cmd = app.update(key(KeyCode::Char('5')));
    assert!(matches!(cmd, Some(Command::FetchMovements { item_id: None, limit: 20, offset: 0 })));
    assert!(matches!(app.screen, Screen::StockMovementLog));
    app.update(key(KeyCode::Char('6')));
    assert!(matches!(app.screen, Screen::Settings));
}

#[test]
fn q_quits() {
    let mut app = App::new();
    app.update(key(KeyCode::Char('q')));
    assert!(app.should_quit);
}

#[test]
fn default_keymap_resolves_bindings() {
    let m = KeyMap::default();
    let press = |code, modifiers| KeyPress { code, modifiers, kind: KeyKind::Press };
    assert_eq!(m.resolve(press(KeyCode::Char('j'), 0)), Some(Action::MoveDown));
    assert_eq!(m.resolve(press(KeyCode::Up, 0)), Some(Action::MoveUp));
    assert_eq!(m.resolve(press(KeyCode::Esc, 0)), Some(Action::Cancel));
    assert_eq!(m.resolve(press(KeyCode::Char('j'), 2)), None);
    assert_eq!(m.resolve(press(KeyCode::Char('z'), 0)), None);
    assert_eq!(KeyBinding::plain(KeyCode::Enter), KeyBinding { code: KeyCode::Enter, modifiers: 0 });
}

#[test]
fn items_load_filter_and_navigate() {
    let mut app = App::new();
    app.update(key(KeyCode::Char('2')));
    app.update(Message::ItemsLoaded(vec![
        item(1, "SKU-010", "Red Widget", 3, 5, 100),
        item(2, "SKU-011", "Blue Gadget", 9, 5, 100),
    ]));
    assert_eq!(app.filtered, vec![0, 1]);
    app.update(key(KeyCode::Char('j')));
    assert_eq!(app.item_selected, 1);
    app.update(key(KeyCode::Char('j')));
    assert_eq!(app.item_selected, 1);
    app.update(key(KeyCode::Char('k')));
    assert_eq!(app.item_selected, 0);
    // search
    app.update(key(KeyCode::Char('/')));
    assert_eq!(app.input_mode, InputMode::Searching);
    typed(&mut app, "gadget");
    assert_eq!(app.filtered, vec![1]);
    assert_eq!(app.item_selected, 0);
    app.update(key(KeyCode::Enter));
    assert_eq!(app.input_mode, InputMode::Normal);
    let cmd = app.update(key(KeyCode::Enter));
    assert!(matches!(cmd, Some(Command::FetchMovements { item_id: Some(ItemId(2)), limit: 20, offset: 0 })));
    assert!(matches!(app.screen, Screen::ItemDetail(ItemId(2))));
}

#[test]
fn search_escape_clears() {
    let mut app = App::new();
    app.update(key(KeyCode::Char('2')));
    app.update(Message::ItemsLoaded(vec![item(1, "AAA", "Red Widget", 3, 5, 1), item(2, "BBB", "Blue", 9, 5, 1)]));
    app.update(key(KeyCode::Char('/')));
    typed(&mut app, "red");
    assert_eq!(app.filtered, vec![0]);
    app.update(key(KeyCode::Esc));
    assert_eq!(app.filtered, vec![0, 1]);
    assert_eq!(app.search_input.value(), "");
    assert_eq!(app.input_mode, InputMode::Normal);
}

#[test]
fn add_item_form_validates_and_submits() {
    let mut app = App::new();
    app.update(key(KeyCode::Char('2')));
    app.update(key(KeyCode::Char('n')));
    assert_eq!(app.input_mode, InputMode::Editing);
    typed(&mut app, "ab");
    // SKU field -> name field -> cost field -> category field, then submit
    for _ in 0..3 {
        app.update(key(KeyCode::Enter));
    }
    assert!(app.update(key(KeyCode::Enter)).is_none());
    match &app.screen {
        Screen::AddItem(f) => assert_eq!(f.error.as_deref(), Some("invalid SKU length: 2")),
        _ => panic!("form closed"),
    }
    // back to the SKU field and fix it
    app.update(key(KeyCode::Tab));
    assert!(matches!(&app.screen, Screen::AddItem(f) if f.focused_field == 0));
    typed(&mut app, "c-1");
    app.update(key(KeyCode::Tab));
    app.update(key(KeyCode::Enter));
    app.update(key(KeyCode::Enter));
    app.update(key(KeyCode::Enter));
    assert!(app.update(key(KeyCode::Enter)).is_none());
    match &app.screen {
        Screen::AddItem(f) => assert_eq!(f.error.as_deref(), Some("name is required")),
        _ => panic!("form closed"),
    }
    app.update(key(KeyCode::BackTab));
    app.update(key(KeyCode::BackTab));
    typed(&mut app, "Lamp");
    app.update(key(KeyCode::Tab));
    typed(&mut app, "12x");
    app.update(key(KeyCode::Tab));
    app.update(key(KeyCode::Enter));
    match &app.screen {
        Screen::AddItem(f) => assert_eq!(f.error.as_deref(), Some("unit cost must be a whole number (kobo)")),
        _ => panic!("form closed"),
    }
    app.update(key(KeyCode::BackTab));
    app.update(key(KeyCode::Backspace));
    app.update(key(KeyCode::Tab));
    app.update(key(KeyCode::Enter));
    match &app.screen {
        Screen::AddItem(f) => assert_eq!(f.error.as_deref(), Some("no category available — create one first")),
        _ => panic!("form closed"),
    }
    app.update(Message::CategoriesLoaded(vec![category(5, "General"), category(6, "Tools")]));
    app.update(key(KeyCode::Right));
    let cmd = app.update(key(KeyCode::Enter));
    match cmd {
        Some(Command::SaveItem(input)) => {
            assert_eq!(input.sku.0, "ABC-1");
            assert_eq!(input.name, "Lamp");
            assert_eq!(input.unit_cost, Money(12));
            assert_eq!(input.category_id, CategoryId(6));
            assert_eq!(input.reorder_threshold, 0);
        }
        _ => panic!("expected a save"),
    }
}

#[test]
fn saved_item_returns_to_list() {
    let mut app = App::new();
    app.update(key(KeyCode::Char('2')));
    app.update(key(KeyCode::Char('n')));
    app.update(Message::ItemSaved(item(4, "NEW-1", "New", 0, 0, 10)));
    assert!(matches!(app.screen, Screen::ItemList));
    assert_eq!(app.input_mode, InputMode::Normal);
    assert_eq!(app.items.len(), 1);
    app.update(Message::ItemUpdated(item(4, "NEW-1", "Renamed", 0, 0, 10)));
    assert_eq!(app.items.len(), 1);
    assert_eq!(app.items[0].item.name, "Renamed");
    assert_eq!(app.filtered, vec![0]);
}

#[test]
fn delete_needs_confirmation() {
    let mut app = App::new();
    app.update(key(KeyCode::Char('2')));
    app.update(Message::ItemsLoaded(vec![item(1, "AAA", "A", 0, 0, 1), item(2, "BBB", "B", 0, 0, 1)]));
    app.update(key(KeyCode::Enter));
    assert!(app.update(key(KeyCode::Char('d'))).is_none());
    assert_eq!(app.input_mode, InputMode::ConfirmingDelete);
    assert_eq!(app.pending_delete, Some(PendingDelete::Item(ItemId(1))));
    assert!(app.update(key(KeyCode::Char('x'))).is_none());
    assert!(app.update(key(KeyCode::Char('n'))).is_none());
    assert_eq!(app.pending_delete, None);
    app.update(key(KeyCode::Char('d')));
    let cmd = app.update(key(KeyCode::Char('y')));
    assert!(matches!(cmd, Some(Command::DeleteItem(ItemId(1)))));
    assert_eq!(app.pending_delete, None);
    app.update(Message::ItemDeleted(ItemId(1)));
    assert_eq!(app.items.len(), 1);
    assert_eq!(app.status.as_deref(), Some("Item deleted"));
    assert!(matches!(app.screen, Screen::ItemList));
}

#[test]
fn stock_adjustment_from_item_detail() {
    let mut app = App::new();
    app.update(key(KeyCode::Char('2')));
    app.update(Message::ItemsLoaded(vec![item(1, "AAA", "A", 0, 0, 1)]));
    app.update(key(KeyCode::Enter));
    app.input_mode = InputMode::Editing;
    app.update(key(KeyCode::Enter));
    assert_eq!(app.item_detail.error.as_deref(), Some("no warehouse available"));
    app.update(Message::WarehousesLoaded(vec![Warehouse {
        id: WarehouseId(8),
        name: WarehouseName::parse("Main").unwrap(),
        location: None,
    }]));
    assert_eq!(app.selected_warehouse, Some(WarehouseId(8)));
    typed(&mut app, "-3");
    app.update(key(KeyCode::Enter));
    assert_eq!(app.item_detail.error.as_deref(), Some("enter a whole, non-negative quantity"));
    app.update(key(KeyCode::Tab));
    app.update(key(KeyCode::Tab));
    assert_eq!(app.item_detail.kind, AdjustKind::Adjustment);
    let cmd = app.update(key(KeyCode::Enter));
    match cmd {
        Some(Command::RecordMovement { item_id, warehouse_id, movement }) => {
            assert_eq!(item_id, ItemId(1));
            assert_eq!(warehouse_id, WarehouseId(8));
            assert!(matches!(movement, StockMovement::Adjustment { delta: -3, ref reason } if reason == "manual adjustment"));
        }
        _ => panic!("expected a movement"),
    }
    let cmd = app.update(Message::StockUpdated(ItemId(1), 12));
    assert_eq!(app.items[0].qty, 12);
    assert_eq!(app.status.as_deref(), Some("Stock updated"));
    assert!(matches!(cmd, Some(Command::FetchMovements { item_id: Some(ItemId(1)), limit: 20, offset: 0 })));
    assert_eq!(app.item_detail.kind, AdjustKind::Inbound);
}

#[test]
fn category_form_creates_and_edits() {
    let mut app = App::new();
    app.update(key(KeyCode::Char('3')));
    app.update(key(KeyCode::Char('n')));
    typed(&mut app, "ab");
    app.update(key(KeyCode::Enter));
    app.update(key(KeyCode::Enter));
    match &app.screen {
        Screen::AddCategory(f) => assert_eq!(f.error.as_deref(), Some("invalid category name length: 2")),
        _ => panic!("form closed"),
    }
    app.update(key(KeyCode::Up));
    typed(&mut app, "c");
    app.update(key(KeyCode::Down));
    typed(&mut app, "desc");
    let cmd = app.update(key(KeyCode::Enter));
    match cmd {
        Some(Command::SaveCategory(c)) => {
            assert_eq!(c.name.0, "abc");
            assert_eq!(c.description.as_deref(), Some("desc"));
        }
        _ => panic!("expected a save"),
    }
    app.update(Message::CategorySaved(category(3, "abc")));
    assert!(matches!(app.screen, Screen::CategoryList));
    app.update(key(KeyCode::Enter));
    assert!(matches!(app.screen, Screen::CategoryDetail(CategoryId(3))));
    app.update(key(KeyCode::Char('e')));
    match &app.screen {
        Screen::AddCategory(f) => {
            assert_eq!(f.name.value(), "abc");
            assert_eq!(f.editing_id, Some(CategoryId(3)));
        }
        _ => panic!("expected the edit form"),
    }
    app.update(key(KeyCode::Enter));
    let cmd = app.update(key(KeyCode::Enter));
    match cmd {
        Some(Command::UpdateCategory(u)) => {
            assert_eq!(u.id, CategoryId(3));
            assert_eq!(u.name.unwrap().0, "abc");
            assert!(u.description.is_none());
        }
        _ => panic!("expected an update"),
    }
}

#[test]
fn errors_show_on_open_form_and_status() {
    let mut app = App::new();
    app.update(key(KeyCode::Char('4')));
    app.update(key(KeyCode::Char('n')));
    app.update(Message::Error("boom".into()));
    assert_eq!(app.status.as_deref(), Some("boom"));
    match &app.screen {
        Screen::AddWarehouse(f) => assert_eq!(f.error.as_deref(), Some("boom")),
        _ => panic!("form closed"),
    }
}

#[test]
fn warehouse_delete_moves_active_warehouse() {
    let mut app = App::new();
    let wh = |id: u128, name: &str| Warehouse { id: WarehouseId(id), name: WarehouseName::parse(name).unwrap(), location: None };
    app.update(Message::WarehousesLoaded(vec![wh(1, "Main"), wh(2, "Annex")]));
    assert_eq!(app.selected_warehouse, Some(WarehouseId(1)));
    app.update(Message::WarehouseDeleted(WarehouseId(1)));
    assert_eq!(app.selected_warehouse, Some(WarehouseId(2)));
    assert_eq!(app.status.as_deref(), Some("Warehouse deleted"));
    assert_eq!(app.warehouses.len(), 1);
}

#[test]
fn hints_follow_screen_and_mode() {
    let mut app = App::new();
    assert_eq!(hints_for(&app), "1-6: switch screen   q: quit");
    app.update(key(KeyCode::Char('2')));
    assert_eq!(hints_for(&app), "j/k: move   Enter: view   n: new   /: search   1-6: switch screen   q: quit");
    app.update(key(KeyCode::Char('/')));
    assert_eq!(hints_for(&app), "type to search items   Enter: lock in   Esc: clear");
    app.input_mode = InputMode::ConfirmingDelete;
    assert_eq!(hints_for(&app), "y: confirm delete n / Esc: Cancel");
}

#[test]
fn adjust_kind_cycles() {
    assert_eq!(AdjustKind::Inbound.next(), AdjustKind::Outbound);
    assert_eq!(AdjustKind::Outbound.next(), AdjustKind::Adjustment);
    assert_eq!(AdjustKind::Adjustment.next(), AdjustKind::Inbound);
    assert_eq!(AdjustKind::Adjustment.label(), "Adjustment (±)");
    assert_eq!(AdjustKind::Inbound.label(), "Inbound (+)");
}

#[test]
fn dashboard_figures() {
    let items = vec![item(1, "AAA", "A", 3, 5, 100), item(2, "BBB", "B", 9, 5, -20), item(3, "CCC", "C", 5, 5, 7)];
    assert_eq!(low_stock_count(&items), 1);
    assert_eq!(inventory_value(&items), 87);
    let rec = |delta: i32| stash::stock::StockMovementRecord {
        id: stash::ids::MovementId(0),
        item_id: ItemId(1),
        warehouse_id: WarehouseId(1),
        movement: StockMovement::Adjustment { delta, reason: String::new() },
        created_at: 0,
    };
    assert_eq!(recent_movement_trend(&vec![rec(-4), rec(2), rec(0)]), vec![0, 2, 4]);
}

#[test]
fn search_field_edits_with_backspace_and_cursor_keys() {
    let mut app = App::new();
    app.update(key(KeyCode::Char('2')));
    app.update(Message::ItemsLoaded(vec![item(1, "AAA", "Red Widget", 3, 5, 1), item(2, "BBB", "Blue", 9, 5, 1)]));
    app.update(key(KeyCode::Char('/')));
    typed(&mut app, "redx");
    assert!(app.filtered.is_empty());
    app.update(key(KeyCode::Backspace));
    assert_eq!(app.search_input.value(), "red");
    assert_eq!(app.filtered, vec![0]);
    app.update(key(KeyCode::Home));
    assert_eq!(app.search_input.cursor(), 0);
    app.update(key(KeyCode::Delete));
    assert_eq!(app.search_input.value(), "ed");
    app.update(key(KeyCode::End));
    assert_eq!(app.search_input.cursor(), 2);
    app.update(key(KeyCode::Left));
    typed(&mut app, "x");
    assert_eq!(app.search_input.value(), "exd");
    app.update(key(KeyCode::Right));
    assert_eq!(app.search_input.cursor(), 3);
}

#[test]
fn item_form_fields_edit_with_backspace_and_delete() {
    let mut app = App::new();
    app.update(key(KeyCode::Char('2')));
    app.update(key(KeyCode::Char('n')));
    typed(&mut app, "abcd");
    app.update(key(KeyCode::Backspace));
    app.update(key(KeyCode::Home));
    app.update(key(KeyCode::Delete));
    match &app.screen {
        Screen::AddItem(f) => assert_eq!(f.sku.value(), "bc"),
        _ => panic!("form closed"),
    }
    // a meta-modified letter is no typing key
    app.update(Message::KeyPressed(KeyPress {
        code: KeyCode::Char('z'),
        modifiers: stash::tui::keys::META,
        kind: KeyKind::Press,
    }));
    match &app.screen {
        Screen::AddItem(f) => assert_eq!(f.sku.value(), "bc"),
        _ => panic!("form closed"),
    }
}

#[test]
fn selections_stay_in_range_as_lists_shrink() {
    let mut app = App::new();
    app.update(key(KeyCode::Char('2')));
    app.update(Message::ItemsLoaded(vec![item(1, "AAA", "A", 1, 0, 1), item(2, "BBB", "B", 1, 0, 1), item(3, "CCC", "C", 1, 0, 1)]));
    app.update(key(KeyCode::Char('j')));
    app.update(key(KeyCode::Char('j')));
    app.update(key(KeyCode::Char('j')));
    assert_eq!(app.item_selected, 2);
    app.update(Message::ItemDeleted(ItemId(3)));
    assert_eq!(app.filtered, vec![0, 1]);
    assert_eq!(app.item_selected, 1);
    app.update(Message::ItemsLoaded(Vec::new()));
    assert_eq!(app.item_selected, 0);
    assert!(app.filtered.is_empty());
}

fn ctrl(c: char) -> Message {
    Message::KeyPressed(KeyPress { code: KeyCode::Char(c), modifiers: stash::tui::keys::CONTROL, kind: KeyKind::Press })
}

#[test]
fn ctrl_y_yanks_back_what_was_cut() {
    let mut app = App::new();
    app.update(key(KeyCode::Char('2')));
    app.update(key(KeyCode::Char('n')));
    typed(&mut app, "abc-12");
    app.update(ctrl('u'));
    match &app.screen {
        Screen::AddItem(f) => assert_eq!(f.sku.value(), ""),
        _ => panic!("form closed"),
    }
    typed(&mut app, "xy");
    app.update(key(KeyCode::Home));
    app.update(ctrl('y'));
    match &app.screen {
        Screen::AddItem(f) => {
            assert_eq!(f.sku.value(), "abc-12xy");
            assert_eq!(f.sku.cursor(), 6);
        }
        _ => panic!("form closed"),
    }
    // two cuts in a row gather into one yank: the tail, then the whole line before it
    app.update(key(KeyCode::Left));
    app.update(ctrl('k'));
    app.update(ctrl('u'));
    app.update(ctrl('y'));
    match &app.screen {
        Screen::AddItem(f) => assert_eq!(f.sku.value(), "abc-12xy"),
        _ => panic!("form closed"),
    }
}
