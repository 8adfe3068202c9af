//! What the front end does with each message: a key press, or a storage reply.
use vstd::prelude::*;
use crate::item::ItemWithStock;
use crate::text::{copy_str, is_blank, str_is_blank};
use crate::tui::handle::{key_ok, min_nat, refiltered, sat_dec};
use crate::tui::input::{input_text, input_value};
use crate::tui::lists::{
    find_item, index_where, is_category, is_item, is_warehouse, remove_category, remove_item, remove_warehouse,
    upsert_category, upsert_item, upsert_warehouse, upserted, without,
};
use crate::tui::state::{
    text_is, App, CategoryFormState, Command, InputMode, ItemDetailState, ItemFormState, Message, Screen,
    WarehouseFormState,
};

verus! {

/// The selection kept within a list of `len` entries.
pub open spec fn clamped(sel: usize, len: nat) -> usize {
    min_nat(sel as nat, sat_dec(len)) as usize
}

/// The selection the search results leave: kept for a blank query, else reset.
pub open spec fn selection_after_filter(app: App) -> usize {
    if is_blank(input_text(app.search_input)) { app.item_selected } else { 0 }
}

/// The identifier of the first warehouse of a list, if any.
pub open spec fn first_warehouse_id(ws: Seq<crate::warehouse::Warehouse>) -> Option<crate::ids::WarehouseId> {
    if ws.len() > 0 { Some(ws[0].id) } else { None }
}

/// The error `err` shown on the screen that is open: on a form, or on the item detail
/// panel; other screens only show it in the status line.
pub open spec fn error_shown(old: App, err: Seq<char>, new: App) -> bool {
    &&& text_is(new.status, err)
    &&& match old.screen {
        Screen::AddItem(f) => new == App { screen: new.screen, status: new.status, ..old }
            && (new.screen matches Screen::AddItem(g) && g == ItemFormState { error: g.error, ..f } && text_is(g.error, err)),
        Screen::AddCategory(f) => new == App { screen: new.screen, status: new.status, ..old }
            && (new.screen matches Screen::AddCategory(g) && g == CategoryFormState { error: g.error, ..f } && text_is(g.error, err)),
        Screen::AddWarehouse(f) => new == App { screen: new.screen, status: new.status, ..old }
            && (new.screen matches Screen::AddWarehouse(g) && g == WarehouseFormState { error: g.error, ..f } && text_is(g.error, err)),
        Screen::ItemDetail(_) => new == App { item_detail: new.item_detail, status: new.status, ..old }
            && new.item_detail == ItemDetailState { error: new.item_detail.error, ..old.item_detail }
            && text_is(new.item_detail.error, err),
        _ => new == App { status: new.status, ..old },
    }
}

/// What a message does to the state, and what it asks for next.
pub open spec fn update_ok(old: App, msg: Message, new: App, res: Option<Command>) -> bool {
    match msg {
        Message::Tick => new == old && res is None,
        Message::Nothing => new == old && res is None,
        Message::KeyPressed(key) => key_ok(old, key, new, res),
        Message::ItemsLoaded(items) => {
            let before = App { items, ..old };
            let sel = selection_after_filter(old);
            &&& refiltered(before, App { item_selected: sel, ..new })
            &&& new.item_selected == clamped(sel, new.filtered@.len())
            &&& res is None
        },
        Message::ItemSaved(v) | Message::ItemUpdated(v) => {
            &&& new.items@ == upserted(old.items@, is_item(v.item.id), v)
            &&& refiltered(App { items: new.items, ..old },
                    App { screen: old.screen, input_mode: old.input_mode, ..new })
            &&& new.screen is ItemList
            &&& new.input_mode == InputMode::Normal
            &&& res is None
        },
        Message::ItemDeleted(id) => {
            let sel = selection_after_filter(old);
            &&& new.items@ == without(old.items@, is_item(id))
            &&& refiltered(App { items: new.items, ..old },
                    App { item_selected: sel, screen: old.screen, input_mode: old.input_mode, status: old.status, ..new })
            &&& new.item_selected == clamped(sel, new.filtered@.len())
            &&& new.screen is ItemList
            &&& new.input_mode == InputMode::Normal
            &&& text_is(new.status, "Item deleted"@)
            &&& res is None
        },
        Message::CategoriesLoaded(categories) => {
            &&& new == App {
                category_selected: clamped(old.category_selected, categories@.len()),
                categories,
                ..old
            }
            &&& res is None
        },
        Message::CategorySaved(c) | Message::CategoryUpdated(c) => {
            &&& new == App { categories: new.categories, screen: Screen::CategoryList, input_mode: InputMode::Normal, ..old }
            &&& new.categories@ == upserted(old.categories@, is_category(c.id), c)
            &&& res is None
        },
        Message::CategoryDeleted(id) => {
            &&& new == App {
                categories: new.categories,
                category_selected: clamped(old.category_selected, new.categories@.len()),
                screen: Screen::CategoryList,
                input_mode: InputMode::Normal,
                status: new.status,
                ..old
            }
            &&& new.categories@ == without(old.categories@, is_category(id))
            &&& text_is(new.status, "Category deleted"@)
            &&& res is None
        },
        Message::WarehousesLoaded(warehouses) => {
            &&& new == App {
                selected_warehouse: if old.selected_warehouse is None {
                    first_warehouse_id(warehouses@)
                } else {
                    old.selected_warehouse
                },
                warehouse_selected: clamped(old.warehouse_selected, warehouses@.len()),
                warehouses,
                ..old
            }
            &&& res is None
        },
        Message::WarehouseSaved(w) | Message::WarehouseUpdated(w) => {
            &&& new == App { warehouses: new.warehouses, screen: Screen::WarehouseList, input_mode: InputMode::Normal, ..old }
            &&& new.warehouses@ == upserted(old.warehouses@, is_warehouse(w.id), w)
            &&& res is None
        },
        Message::WarehouseDeleted(id) => {
            &&& new == App {
                warehouses: new.warehouses,
                selected_warehouse: if old.selected_warehouse == Some(id) {
                    first_warehouse_id(new.warehouses@)
                } else {
                    old.selected_warehouse
                },
                warehouse_selected: clamped(old.warehouse_selected, new.warehouses@.len()),
                screen: Screen::WarehouseList,
                input_mode: InputMode::Normal,
                status: new.status,
                ..old
            }
            &&& new.warehouses@ == without(old.warehouses@, is_warehouse(id))
            &&& text_is(new.status, "Warehouse deleted"@)
            &&& res is None
        },
        Message::StockUpdated(item_id, qty) => {
            &&& new == App { items: new.items, item_detail: new.item_detail, status: new.status, ..old }
            &&& new.items@ == match index_where(old.items@, is_item(item_id)) {
                Some(i) => old.items@.update(i, ItemWithStock { qty: qty as i64, ..old.items@[i] }),
                None => old.items@,
            }
            &&& new.item_detail.is_fresh()
            &&& text_is(new.status, "Stock updated"@)
            &&& res == Some(Command::FetchMovements { item_id: Some(item_id), limit: 20, offset: 0 })
        },
        Message::MovementsLoaded(records) => new == App { movement_page: records, ..old } && res is None,
        Message::Error(err) => error_shown(old, err@, new) && res is None,
    }
}

impl App {
    fn clamp_item_selection(&mut self)
        ensures
            *final(self) == (App { item_selected: clamped(old(self).item_selected, old(self).filtered@.len()), ..*old(self) }),
    {
        let n = self.filtered.len();
        let last = if n == 0 { 0 } else { n - 1 };
        if self.item_selected > last {
            self.item_selected = last;
        }
    }

    /// Takes in a message: a key press goes to the key handlers; a storage reply updates
    /// the loaded lists, the screen and the status line.
    pub fn update(&mut self, msg: Message) -> (res: Option<Command>)
        requires
            old(self).wf(),
        ensures
            update_ok(*old(self), msg, *final(self), res),
            final(self).wf(),
    {
        match msg {
            Message::Tick => None,
            Message::Nothing => None,
            Message::KeyPressed(key) => self.handle_key(key),
            Message::ItemsLoaded(items) => {
                self.items = items;
                self.recompute_filter();
                self.clamp_item_selection();
                None
            },
            Message::ItemSaved(v) => {
                upsert_item(&mut self.items, v);
                self.recompute_filter();
                self.screen = Screen::ItemList;
                self.input_mode = InputMode::Normal;
                None
            },
            Message::ItemUpdated(v) => {
                upsert_item(&mut self.items, v);
                self.recompute_filter();
                self.screen = Screen::ItemList;
                self.input_mode = InputMode::Normal;
                None
            },
            Message::ItemDeleted(id) => {
                remove_item(&mut self.items, id);
                self.recompute_filter();
                self.clamp_item_selection();
                self.screen = Screen::ItemList;
                self.input_mode = InputMode::Normal;
                self.status = Some(copy_str("Item deleted"));
                None
            },
            Message::CategoriesLoaded(categories) => {
                self.categories = categories;
                let n = self.categories.len();
                let last = if n == 0 { 0 } else { n - 1 };
                if self.category_selected > last {
                    self.category_selected = last;
                }
                None
            },
            Message::CategorySaved(c) => {
                upsert_category(&mut self.categories, c);
                self.screen = Screen::CategoryList;
                self.input_mode = InputMode::Normal;
                None
            },
            Message::CategoryUpdated(c) => {
                upsert_category(&mut self.categories, c);
                self.screen = Screen::CategoryList;
                self.input_mode = InputMode::Normal;
                None
            },
            Message::CategoryDeleted(id) => {
                remove_category(&mut self.categories, id);
                let n = self.categories.len();
                let last = if n == 0 { 0 } else { n - 1 };
                if self.category_selected > last {
                    self.category_selected = last;
                }
                self.screen = Screen::CategoryList;
                self.input_mode = InputMode::Normal;
                self.status = Some(copy_str("Category deleted"));
                None
            },
            Message::WarehousesLoaded(warehouses) => {
                if self.selected_warehouse.is_none() {
                    self.selected_warehouse = if warehouses.len() > 0 { Some(warehouses[0].id) } else { None };
                }
                self.warehouses = warehouses;
                let n = self.warehouses.len();
                let last = if n == 0 { 0 } else { n - 1 };
                if self.warehouse_selected > last {
                    self.warehouse_selected = last;
                }
                None
            },
            Message::WarehouseSaved(w) => {
                upsert_warehouse(&mut self.warehouses, w);
                self.screen = Screen::WarehouseList;
                self.input_mode = InputMode::Normal;
                None
            },
            Message::WarehouseUpdated(w) => {
                upsert_warehouse(&mut self.warehouses, w);
                self.screen = Screen::WarehouseList;
                self.input_mode = InputMode::Normal;
                None
            },
            Message::WarehouseDeleted(id) => {
                remove_warehouse(&mut self.warehouses, id);
                if self.selected_warehouse == Some(id) {
                    self.selected_warehouse = if self.warehouses.len() > 0 { Some(self.warehouses[0].id) } else { None };
                }
                let n = self.warehouses.len();
                let last = if n == 0 { 0 } else { n - 1 };
                if self.warehouse_selected > last {
                    self.warehouse_selected = last;
                }
                self.screen = Screen::WarehouseList;
                self.input_mode = InputMode::Normal;
                self.status = Some(copy_str("Warehouse deleted"));
                None
            },
            Message::StockUpdated(item_id, qty) => {
                if let Some(i) = find_item(&self.items, item_id) {
                    proof { crate::tui::lists::lemma_index_where_spec(self.items@, is_item(item_id)); }
                    let ghost before = self.items@;
                    let mut entry = self.items.remove(i);
                    entry.qty = qty as i64;
                    self.items.insert(i, entry);
                    proof {
                        assert(self.items@ =~= before.update(i as int, ItemWithStock { qty: qty as i64, ..before[i as int] }));
                    }
                }
                self.item_detail = ItemDetailState::default();
                self.status = Some(copy_str("Stock updated"));
                Some(Command::FetchMovements { item_id: Some(item_id), limit: 20, offset: 0 })
            },
            Message::MovementsLoaded(records) => {
                self.movement_page = records;
                None
            },
            Message::Error(err) => {
                let mut screen = Screen::Dashboard;
                std::mem::swap(&mut screen, &mut self.screen);
                match screen {
                    Screen::AddItem(mut form) => {
                        form.error = Some(copy_str(err.as_str()));
                        self.screen = Screen::AddItem(form);
                    },
                    Screen::AddCategory(mut form) => {
                        form.error = Some(copy_str(err.as_str()));
                        self.screen = Screen::AddCategory(form);
                    },
                    Screen::AddWarehouse(mut form) => {
                        form.error = Some(copy_str(err.as_str()));
                        self.screen = Screen::AddWarehouse(form);
                    },
                    Screen::ItemDetail(id) => {
                        self.item_detail.error = Some(copy_str(err.as_str()));
                        self.screen = Screen::ItemDetail(id);
                    },
                    other => {
                        self.screen = other;
                    },
                }
                self.status = Some(err);
                None
            },
        }
    }
}

} // verus!
