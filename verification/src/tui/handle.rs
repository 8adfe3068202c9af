//! What each key does, screen by screen and mode by mode.
use vstd::prelude::*;
use crate::ids::ItemId;
use crate::text::{i64_text, is_blank, signed_decimal, str_is_blank};
use crate::tui::filter::{all_indices, filter_items, is_fuzzy_order};
use crate::tui::input::{edited_by, empty_input, input_handle_key, input_text, input_value, new_input};
use crate::tui::keys::{lookup, Action, KeyBinding, KeyCode, KeyPress};
use crate::tui::lists::{find_category, find_item, find_warehouse, index_where, is_category, is_item, is_warehouse};
use crate::tui::state::{
    is_empty_field, next_kind, App, CategoryFormState, Command, InputMode, ItemDetailState, ItemFormState, PendingDelete, Screen,
    WarehouseFormState,
};
use crate::tui::submit::{category_submit_ok, item_submit_ok, stock_submit_ok, warehouse_submit_ok};

verus! {

/// `n - 1`, or zero for zero.
pub open spec fn sat_dec(n: nat) -> nat {
    if n == 0 { 0 } else { (n - 1) as nat }
}

/// The smaller of two numbers.
pub open spec fn min_nat(a: nat, b: nat) -> nat {
    if a <= b { a } else { b }
}

/// The selection moved one down, staying on the last entry of a list of `len`.
pub open spec fn moved_down(sel: usize, len: nat) -> usize {
    min_nat(if sel == usize::MAX { sel as nat } else { (sel + 1) as nat }, sat_dec(len)) as usize
}

/// The selection moved one up, staying on the first entry.
pub open spec fn moved_up(sel: usize) -> usize {
    if sel == 0 { 0 } else { (sel - 1) as usize }
}

impl App {
    /// The form cursors stay within their forms: the item form has four fields, the
    /// category and warehouse forms two.
    pub open spec fn wf(&self) -> bool {
        match self.screen {
            Screen::AddItem(f) => f.focused_field < 4 && f.category_index < usize::MAX,
            Screen::AddCategory(f) => f.focused_field < 2,
            Screen::AddWarehouse(f) => f.focused_field < 2,
            _ => true,
        }
    }
}

/// The search results after the list or the query changed: every item in list order
/// for a blank query (selection kept), else the fuzzy matches best first (selection reset).
pub open spec fn refiltered(before: App, after: App) -> bool {
    let q = input_text(before.search_input);
    &&& after == App { filtered: after.filtered, item_selected: after.item_selected, ..before }
    &&& is_blank(q) ==> after.filtered@ == all_indices(before.items@.len()) && after.item_selected == before.item_selected
    &&& !is_blank(q) ==> is_fuzzy_order(before.items@, q, after.filtered@) && after.item_selected == 0
}

/// A key while searching: Esc clears the search, Enter keeps it, any other key edits it;
/// the results follow the query.
pub open spec fn searching_ok(old: App, key: KeyPress, new: App, res: Option<Command>) -> bool {
    &&& res is None
    &&& match key.code {
        KeyCode::Esc => is_empty_field(new.search_input) && refiltered(
            App { input_mode: InputMode::Normal, search_input: new.search_input, ..old }, new),
        KeyCode::Enter => new == App { input_mode: InputMode::Normal, ..old },
        _ => edited_by(old.search_input, key, new.search_input)
            && refiltered(App { search_input: new.search_input, ..old }, new),
    }
}

/// A key while a delete waits for confirmation: `y` confirms (asking for the delete),
/// `n` or Esc cancels, any other key is ignored.
pub open spec fn confirming_ok(old: App, key: KeyPress, new: App, res: Option<Command>) -> bool {
    match key.code {
        KeyCode::Char('y') => new == App { input_mode: InputMode::Normal, pending_delete: None, ..old }
            && res == match old.pending_delete {
                None => None,
                Some(PendingDelete::Item(id)) => Some(Command::DeleteItem(id)),
                Some(PendingDelete::Category(id)) => Some(Command::DeleteCategory(id)),
                Some(PendingDelete::Warehouse(id)) => Some(Command::DeleteWarehouse(id)),
            },
        KeyCode::Char('n') | KeyCode::Esc =>
            new == App { input_mode: InputMode::Normal, pending_delete: None, ..old } && res is None,
        _ => new == old && res is None,
    }
}

/// A key on the item detail screen while editing: Esc goes back to the list, Tab cycles
/// the movement kind, Enter submits the quantity, any other key edits it.
pub open spec fn item_detail_ok(old: App, key: KeyPress, item_id: ItemId, new: App, res: Option<Command>) -> bool {
    match key.code {
        KeyCode::Esc => new == App { input_mode: InputMode::Normal, screen: Screen::ItemList, ..old } && res is None,
        KeyCode::Tab => new == App {
            item_detail: ItemDetailState { kind: next_kind(old.item_detail.kind), ..old.item_detail },
            ..old
        } && res is None,
        KeyCode::Enter => stock_submit_ok(old, item_id, new, res),
        _ => new == App {
            item_detail: ItemDetailState { adjust_input: new.item_detail.adjust_input, ..old.item_detail },
            ..old
        } && edited_by(old.item_detail.adjust_input, key, new.item_detail.adjust_input) && res is None,
    }
}

impl App {
    /// Recomputes the search results from the item list and the search query.
    pub fn recompute_filter(&mut self)
        ensures
            refiltered(*old(self), *final(self)),
    {
        let query = input_value(&self.search_input);
        let blank = str_is_blank(query);
        let filtered = filter_items(&self.items, query);
        self.filtered = filtered;
        if !blank {
            self.item_selected = 0;
        }
    }

    /// Handles a key while searching.
    pub fn handle_key_searching(&mut self, key: KeyPress) -> (res: Option<Command>)
        ensures
            searching_ok(*old(self), key, *final(self), res),
    {
        match key.code {
            KeyCode::Esc => {
                self.input_mode = InputMode::Normal;
                self.search_input = empty_input();
                self.recompute_filter();
            },
            KeyCode::Enter => {
                self.input_mode = InputMode::Normal;
            },
            _ => {
                input_handle_key(&mut self.search_input, key);
                self.recompute_filter();
            },
        }
        None
    }

    /// Handles a key while a delete waits for confirmation.
    pub fn handle_key_confirming_delete(&mut self, key: KeyPress) -> (res: Option<Command>)
        ensures
            confirming_ok(*old(self), key, *final(self), res),
    {
        match key.code {
            KeyCode::Char('y') => {
                self.input_mode = InputMode::Normal;
                let pending = self.pending_delete;
                self.pending_delete = None;
                match pending {
                    None => None,
                    Some(PendingDelete::Item(id)) => Some(Command::DeleteItem(id)),
                    Some(PendingDelete::Category(id)) => Some(Command::DeleteCategory(id)),
                    Some(PendingDelete::Warehouse(id)) => Some(Command::DeleteWarehouse(id)),
                }
            },
            KeyCode::Char('n') | KeyCode::Esc => {
                self.input_mode = InputMode::Normal;
                self.pending_delete = None;
                None
            },
            _ => None,
        }
    }

    /// Handles a key on the item detail screen while editing.
    pub fn handle_key_item_detail(&mut self, key: KeyPress, item_id: ItemId) -> (res: Option<Command>)
        ensures
            item_detail_ok(*old(self), key, item_id, *final(self), res),
    {
        match key.code {
            KeyCode::Esc => {
                self.input_mode = InputMode::Normal;
                self.screen = Screen::ItemList;
                None
            },
            KeyCode::Tab => {
                self.item_detail.kind = self.item_detail.kind.next();
                None
            },
            KeyCode::Enter => self.try_submit_stock_adjustment(item_id),
            _ => {
                input_handle_key(&mut self.item_detail.adjust_input, key);
                None
            },
        }
    }
}


/// A key on the item form while editing: Esc leaves it, Tab and Shift-Tab move between
/// the four fields, Left and Right on the category field cycle through the categories,
/// Enter moves on (and submits from the last field), any other key edits the focused
/// text field.
pub open spec fn add_item_ok(old: App, key: KeyPress, new: App, res: Option<Command>) -> bool {
    if key.code is Esc {
        new == App { input_mode: InputMode::Normal, screen: Screen::ItemList, ..old } && res is None
    } else if key.code is Tab {
        res is None && match old.screen {
            Screen::AddItem(f) => new == App {
                screen: Screen::AddItem(ItemFormState { focused_field: ((f.focused_field + 1) % 4) as usize, ..f }),
                ..old
            },
            _ => new == old,
        }
    } else if key.code is BackTab {
        res is None && match old.screen {
            Screen::AddItem(f) => new == App {
                screen: Screen::AddItem(ItemFormState {
                    focused_field: if f.focused_field == 0 { 3 } else { (f.focused_field - 1) as usize },
                    ..f
                }),
                ..old
            },
            _ => new == old,
        }
    } else if (key.code is Left || key.code is Right) && (old.screen matches Screen::AddItem(f) && f.focused_field == 3) {
        res is None && match old.screen {
            Screen::AddItem(f) => {
                let len = old.categories@.len();
                new == App {
                    screen: Screen::AddItem(ItemFormState {
                        category_index: if len == 0 {
                            f.category_index
                        } else if key.code is Right {
                            ((f.category_index + 1) % (len as int)) as usize
                        } else if f.category_index == 0 {
                            (len - 1) as usize
                        } else {
                            (f.category_index - 1) as usize
                        },
                        ..f
                    }),
                    ..old
                }
            },
            _ => false,
        }
    } else if key.code is Enter {
        match old.screen {
            Screen::AddItem(f) => if f.focused_field < 3 {
                new == App {
                    screen: Screen::AddItem(ItemFormState { focused_field: (f.focused_field + 1) as usize, ..f }),
                    ..old
                } && res is None
            } else {
                item_submit_ok(old, new, res)
            },
            _ => item_submit_ok(old, new, res),
        }
    } else {
        res is None && match old.screen {
            Screen::AddItem(f) => if f.focused_field == 3 {
                new == old
            } else {
                new == App { screen: new.screen, ..old } && match new.screen {
                    Screen::AddItem(g) => if f.focused_field == 0 {
                        g == ItemFormState { sku: g.sku, ..f } && edited_by(f.sku, key, g.sku)
                    } else if f.focused_field == 1 {
                        g == ItemFormState { name: g.name, ..f } && edited_by(f.name, key, g.name)
                    } else {
                        g == ItemFormState { unit_cost: g.unit_cost, ..f } && edited_by(f.unit_cost, key, g.unit_cost)
                    },
                    _ => false,
                }
            },
            _ => new == old,
        }
    }
}

/// A key on the category form while editing: Esc leaves it, Tab/Down and Shift-Tab/Up
/// move between its two fields, Enter moves on (and submits from the last field), any
/// other key edits the focused field.
pub open spec fn add_category_ok(old: App, key: KeyPress, new: App, res: Option<Command>) -> bool {
    if key.code is Esc {
        new == App { input_mode: InputMode::Normal, screen: Screen::CategoryList, ..old } && res is None
    } else if key.code is Tab || key.code is Down {
        res is None && match old.screen {
            Screen::AddCategory(f) => new == App {
                screen: Screen::AddCategory(CategoryFormState { focused_field: ((f.focused_field + 1) % 2) as usize, ..f }),
                ..old
            },
            _ => new == old,
        }
    } else if key.code is BackTab || key.code is Up {
        res is None && match old.screen {
            Screen::AddCategory(f) => new == App {
                screen: Screen::AddCategory(CategoryFormState {
                    focused_field: if f.focused_field == 0 { 1 } else { (f.focused_field - 1) as usize },
                    ..f
                }),
                ..old
            },
            _ => new == old,
        }
    } else if key.code is Enter {
        match old.screen {
            Screen::AddCategory(f) => if f.focused_field == 0 {
                new == App { screen: Screen::AddCategory(CategoryFormState { focused_field: 1, ..f }), ..old } && res is None
            } else {
                category_submit_ok(old, new, res)
            },
            _ => category_submit_ok(old, new, res),
        }
    } else {
        res is None && match old.screen {
            Screen::AddCategory(f) => new == App { screen: new.screen, ..old } && match new.screen {
                Screen::AddCategory(g) => if f.focused_field == 0 {
                    g == CategoryFormState { name: g.name, ..f } && edited_by(f.name, key, g.name)
                } else {
                    g == CategoryFormState { description: g.description, ..f } && edited_by(f.description, key, g.description)
                },
                _ => false,
            },
            _ => new == old,
        }
    }
}

/// A key on the warehouse form while editing, as on the category form.
pub open spec fn add_warehouse_ok(old: App, key: KeyPress, new: App, res: Option<Command>) -> bool {
    if key.code is Esc {
        new == App { input_mode: InputMode::Normal, screen: Screen::WarehouseList, ..old } && res is None
    } else if key.code is Tab || key.code is Down {
        res is None && match old.screen {
            Screen::AddWarehouse(f) => new == App {
                screen: Screen::AddWarehouse(WarehouseFormState { focused_field: ((f.focused_field + 1) % 2) as usize, ..f }),
                ..old
            },
            _ => new == old,
        }
    } else if key.code is BackTab || key.code is Up {
        res is None && match old.screen {
            Screen::AddWarehouse(f) => new == App {
                screen: Screen::AddWarehouse(WarehouseFormState {
                    focused_field: if f.focused_field == 0 { 1 } else { (f.focused_field - 1) as usize },
                    ..f
                }),
                ..old
            },
            _ => new == old,
        }
    } else if key.code is Enter {
        match old.screen {
            Screen::AddWarehouse(f) => if f.focused_field == 0 {
                new == App { screen: Screen::AddWarehouse(WarehouseFormState { focused_field: 1, ..f }), ..old } && res is None
            } else {
                warehouse_submit_ok(old, new, res)
            },
            _ => warehouse_submit_ok(old, new, res),
        }
    } else {
        res is None && match old.screen {
            Screen::AddWarehouse(f) => new == App { screen: new.screen, ..old } && match new.screen {
                Screen::AddWarehouse(g) => if f.focused_field == 0 {
                    g == WarehouseFormState { name: g.name, ..f } && edited_by(f.name, key, g.name)
                } else {
                    g == WarehouseFormState { location: g.location, ..f } && edited_by(f.location, key, g.location)
                },
                _ => false,
            },
            _ => new == old,
        }
    }
}

impl App {
    /// Handles a key on the item form: Esc leaves it, Tab and Shift-Tab move between the
    /// fields, Left and Right on the category field pick the category, Enter moves on or
    /// submits, and other keys edit the focused text field.
    ///
    /// Tab on the name field only moves to the next field: no SKU is suggested from the
    /// name, since the domain offers no rule that derives one.
    pub fn handle_key_add_item(&mut self, key: KeyPress) -> (res: Option<Command>)
        requires
            old(self).wf(),
        ensures
            add_item_ok(*old(self), key, *final(self), res),
            final(self).wf(),
    {
        if key.code == KeyCode::Esc {
            self.input_mode = InputMode::Normal;
            self.screen = Screen::ItemList;
            return None;
        }
        if key.code == KeyCode::Enter {
            let advance = match &self.screen {
                Screen::AddItem(f) => f.focused_field < 3,
                _ => false,
            };
            if !advance {
                return self.try_submit_add_item_form();
            }
        }
        let n_categories = self.categories.len();
        let mut screen = Screen::Dashboard;
        std::mem::swap(&mut screen, &mut self.screen);
        let mut form = match screen {
            Screen::AddItem(form) => form,
            other => {
                self.screen = other;
                return None;
            },
        };
        if key.code == KeyCode::Tab {
            form.focused_field = (form.focused_field + 1) % 4;
        } else if key.code == KeyCode::BackTab {
            form.focused_field = if form.focused_field == 0 { 3 } else { form.focused_field - 1 };
        } else if (key.code == KeyCode::Left || key.code == KeyCode::Right) && form.focused_field == 3 {
            if n_categories > 0 {
                form.category_index = if key.code == KeyCode::Right {
                    (form.category_index + 1) % n_categories
                } else if form.category_index == 0 {
                    n_categories - 1
                } else {
                    form.category_index - 1
                };
            }
        } else if key.code == KeyCode::Enter {
            form.focused_field = form.focused_field + 1;
        } else if form.focused_field == 0 {
            input_handle_key(&mut form.sku, key);
        } else if form.focused_field == 1 {
            input_handle_key(&mut form.name, key);
        } else if form.focused_field == 2 {
            input_handle_key(&mut form.unit_cost, key);
        }
        self.screen = Screen::AddItem(form);
        None
    }

    /// Handles a key on the category form.
    pub fn handle_key_add_category(&mut self, key: KeyPress) -> (res: Option<Command>)
        requires
            old(self).wf(),
        ensures
            add_category_ok(*old(self), key, *final(self), res),
            final(self).wf(),
    {
        if key.code == KeyCode::Esc {
            self.input_mode = InputMode::Normal;
            self.screen = Screen::CategoryList;
            return None;
        }
        if key.code == KeyCode::Enter {
            let advance = match &self.screen {
                Screen::AddCategory(f) => f.focused_field == 0,
                _ => false,
            };
            if !advance {
                return self.try_submit_category_form();
            }
        }
        let mut screen = Screen::Dashboard;
        std::mem::swap(&mut screen, &mut self.screen);
        let mut form = match screen {
            Screen::AddCategory(form) => form,
            other => {
                self.screen = other;
                return None;
            },
        };
        if key.code == KeyCode::Tab || key.code == KeyCode::Down {
            form.focused_field = (form.focused_field + 1) % 2;
        } else if key.code == KeyCode::BackTab || key.code == KeyCode::Up {
            form.focused_field = if form.focused_field == 0 { 1 } else { form.focused_field - 1 };
        } else if key.code == KeyCode::Enter {
            form.focused_field = 1;
        } else if form.focused_field == 0 {
            input_handle_key(&mut form.name, key);
        } else {
            input_handle_key(&mut form.description, key);
        }
        self.screen = Screen::AddCategory(form);
        None
    }

    /// Handles a key on the warehouse form.
    pub fn handle_key_add_warehouse(&mut self, key: KeyPress) -> (res: Option<Command>)
        requires
            old(self).wf(),
        ensures
            add_warehouse_ok(*old(self), key, *final(self), res),
            final(self).wf(),
    {
        if key.code == KeyCode::Esc {
            self.input_mode = InputMode::Normal;
            self.screen = Screen::WarehouseList;
            return None;
        }
        if key.code == KeyCode::Enter {
            let advance = match &self.screen {
                Screen::AddWarehouse(f) => f.focused_field == 0,
                _ => false,
            };
            if !advance {
                return self.try_submit_warehouse_form();
            }
        }
        let mut screen = Screen::Dashboard;
        std::mem::swap(&mut screen, &mut self.screen);
        let mut form = match screen {
            Screen::AddWarehouse(form) => form,
            other => {
                self.screen = other;
                return None;
            },
        };
        if key.code == KeyCode::Tab || key.code == KeyCode::Down {
            form.focused_field = (form.focused_field + 1) % 2;
        } else if key.code == KeyCode::BackTab || key.code == KeyCode::Up {
            form.focused_field = if form.focused_field == 0 { 1 } else { form.focused_field - 1 };
        } else if key.code == KeyCode::Enter {
            form.focused_field = 1;
        } else if form.focused_field == 0 {
            input_handle_key(&mut form.name, key);
        } else {
            input_handle_key(&mut form.location, key);
        }
        self.screen = Screen::AddWarehouse(form);
        None
    }
}


/// A key in editing mode: it goes to the item detail panel or the form on screen; on any
/// other screen Esc returns to normal mode and other keys are ignored.
pub open spec fn editing_ok(old: App, key: KeyPress, new: App, res: Option<Command>) -> bool {
    match old.screen {
        Screen::ItemDetail(id) => item_detail_ok(old, key, id, new, res),
        Screen::AddItem(_) => add_item_ok(old, key, new, res),
        Screen::AddCategory(_) => add_category_ok(old, key, new, res),
        Screen::AddWarehouse(_) => add_warehouse_ok(old, key, new, res),
        _ => res is None && if key.code is Esc {
            new == App { input_mode: InputMode::Normal, ..old }
        } else {
            new == old
        },
    }
}

/// The text of an optional field, or nothing.
pub open spec fn text_or_empty(o: Option<String>) -> Seq<char> {
    match o {
        Some(s) => s@,
        None => Seq::empty(),
    }
}

/// What an action does in normal mode on the screen shown.
pub open spec fn normal_action_ok(old: App, a: Action, new: App, res: Option<Command>) -> bool {
    if a is Quit {
        new == App { should_quit: true, ..old } && res is None
    } else {
        match old.screen {
            Screen::ItemList => match a {
                Action::MoveDown => new == App { item_selected: moved_down(old.item_selected, old.filtered@.len()), ..old }
                    && res is None,
                Action::MoveUp => new == App { item_selected: moved_up(old.item_selected), ..old } && res is None,
                Action::Search => new == App { input_mode: InputMode::Searching, ..old } && res is None,
                Action::Select => if old.item_selected < old.filtered@.len()
                    && old.filtered@[old.item_selected as int] < old.items@.len() {
                    let id = old.items@[old.filtered@[old.item_selected as int] as int].item.id;
                    &&& new == App { screen: Screen::ItemDetail(id), item_detail: new.item_detail, ..old }
                    &&& new.item_detail.is_fresh()
                    &&& res == Some(Command::FetchMovements { item_id: Some(id), limit: 20, offset: 0 })
                } else {
                    new == old && res is None
                },
                Action::New => new == App { screen: new.screen, input_mode: InputMode::Editing, ..old }
                    && (new.screen matches Screen::AddItem(f) && f.is_fresh()) && res is None,
                _ => new == old && res is None,
            },
            Screen::ItemDetail(id) => match a {
                Action::Delete => new == App {
                    pending_delete: Some(PendingDelete::Item(id)),
                    input_mode: InputMode::ConfirmingDelete,
                    ..old
                } && res is None,
                Action::Edit => res is None && match index_where(old.items@, is_item(id)) {
                    None => new == old,
                    Some(i) => {
                        let e = old.items@[i].item;
                        &&& new == App { screen: new.screen, input_mode: InputMode::Editing, ..old }
                        &&& new.screen matches Screen::AddItem(f)
                        &&& input_text(f.sku) == e.sku.0@
                        &&& input_text(f.name) == e.name@
                        &&& input_text(f.unit_cost) == signed_decimal(e.unit_cost.0 as int)
                        &&& f.editing_id == Some(id)
                        &&& f.focused_field == 0
                        &&& f.error is None
                        &&& f.category_index == match index_where(old.categories@, is_category(e.category_id)) {
                            Some(j) => j as usize,
                            None => 0usize,
                        }
                    },
                },
                Action::Cancel => new == App { screen: Screen::ItemList, ..old } && res is None,
                _ => new == old && res is None,
            },
            Screen::CategoryList => match a {
                Action::MoveDown => new == App {
                    category_selected: moved_down(old.category_selected, old.categories@.len()),
                    ..old
                } && res is None,
                Action::MoveUp => new == App { category_selected: moved_up(old.category_selected), ..old } && res is None,
                Action::Select => res is None && if old.category_selected < old.categories@.len() {
                    new == App { screen: Screen::CategoryDetail(old.categories@[old.category_selected as int].id), ..old }
                } else {
                    new == old
                },
                Action::New => new == App { screen: new.screen, input_mode: InputMode::Editing, ..old }
                    && (new.screen matches Screen::AddCategory(f) && f.is_fresh()) && res is None,
                _ => new == old && res is None,
            },
            Screen::CategoryDetail(id) => match a {
                Action::Delete => new == App {
                    pending_delete: Some(PendingDelete::Category(id)),
                    input_mode: InputMode::ConfirmingDelete,
                    ..old
                } && res is None,
                Action::Edit => res is None && match index_where(old.categories@, is_category(id)) {
                    None => new == old,
                    Some(i) => {
                        let c = old.categories@[i];
                        &&& new == App { screen: new.screen, input_mode: InputMode::Editing, ..old }
                        &&& new.screen matches Screen::AddCategory(f)
                        &&& input_text(f.name) == c.name.0@
                        &&& input_text(f.description) == text_or_empty(c.description)
                        &&& f.editing_id == Some(id)
                        &&& f.focused_field == 0
                        &&& f.error is None
                    },
                },
                Action::Cancel => new == App { screen: Screen::CategoryList, ..old } && res is None,
                _ => new == old && res is None,
            },
            Screen::WarehouseList => match a {
                Action::MoveDown => new == App {
                    warehouse_selected: moved_down(old.warehouse_selected, old.warehouses@.len()),
                    ..old
                } && res is None,
                Action::MoveUp => new == App { warehouse_selected: moved_up(old.warehouse_selected), ..old } && res is None,
                Action::Select => res is None && if old.warehouse_selected < old.warehouses@.len() {
                    new == App { screen: Screen::WarehouseDetail(old.warehouses@[old.warehouse_selected as int].id), ..old }
                } else {
                    new == old
                },
                Action::New => new == App { screen: new.screen, input_mode: InputMode::Editing, ..old }
                    && (new.screen matches Screen::AddWarehouse(f) && f.is_fresh()) && res is None,
                _ => new == old && res is None,
            },
            Screen::WarehouseDetail(id) => match a {
                Action::Delete => new == App {
                    pending_delete: Some(PendingDelete::Warehouse(id)),
                    input_mode: InputMode::ConfirmingDelete,
                    ..old
                } && res is None,
                Action::Edit => res is None && match index_where(old.warehouses@, is_warehouse(id)) {
                    None => new == old,
                    Some(i) => {
                        let w = old.warehouses@[i];
                        &&& new == App { screen: new.screen, input_mode: InputMode::Editing, ..old }
                        &&& new.screen matches Screen::AddWarehouse(f)
                        &&& input_text(f.name) == w.name.0@
                        &&& input_text(f.location) == text_or_empty(w.location)
                        &&& f.editing_id == Some(id)
                        &&& f.focused_field == 0
                        &&& f.error is None
                    },
                },
                Action::Cancel => new == App { screen: Screen::WarehouseList, ..old } && res is None,
                _ => new == old && res is None,
            },
            _ => new == old && res is None,
        }
    }
}

/// A key in normal mode: the action the key map binds it to, if any.
pub open spec fn normal_ok(old: App, key: KeyPress, new: App, res: Option<Command>) -> bool {
    match lookup(old.keymap.0@, KeyBinding { code: key.code, modifiers: key.modifiers }) {
        None => new == old && res is None,
        Some(a) => normal_action_ok(old, a, new, res),
    }
}

/// The screen a digit key switches to in normal mode.
pub open spec fn screen_for_digit(c: char) -> Screen {
    if c == '1' { Screen::Dashboard }
    else if c == '2' { Screen::ItemList }
    else if c == '3' { Screen::CategoryList }
    else if c == '4' { Screen::WarehouseList }
    else if c == '5' { Screen::StockMovementLog }
    else { Screen::Settings }
}

/// What a key press does: in normal mode the digits `1` to `6` switch screens (the
/// movement log also asks for the recent movements); every other key goes to the
/// handler of the current mode.
pub open spec fn key_ok(old: App, key: KeyPress, new: App, res: Option<Command>) -> bool {
    if old.input_mode == InputMode::Normal && (key.code matches KeyCode::Char(c) && '1' <= c && c <= '6') {
        let c = key.code->Char_0;
        &&& new == App { screen: screen_for_digit(c), ..old }
        &&& res == if c == '5' {
            Some(Command::FetchMovements { item_id: None, limit: 20, offset: 0 })
        } else {
            None
        }
    } else {
        match old.input_mode {
            InputMode::Normal => normal_ok(old, key, new, res),
            InputMode::Editing => editing_ok(old, key, new, res),
            InputMode::Searching => searching_ok(old, key, new, res),
            InputMode::ConfirmingDelete => confirming_ok(old, key, new, res),
        }
    }
}

impl App {
    /// Handles a key in editing mode.
    pub fn handle_key_editing(&mut self, key: KeyPress) -> (res: Option<Command>)
        requires
            old(self).wf(),
        ensures
            editing_ok(*old(self), key, *final(self), res),
            final(self).wf(),
    {
        let detail: Option<ItemId> = match &self.screen {
            Screen::ItemDetail(id) => Some(*id),
            _ => None,
        };
        if let Some(id) = detail {
            return self.handle_key_item_detail(key, id);
        }
        let which: u8 = match &self.screen {
            Screen::AddItem(_) => 1,
            Screen::AddCategory(_) => 2,
            Screen::AddWarehouse(_) => 3,
            _ => 0,
        };
        if which == 1 {
            return self.handle_key_add_item(key);
        }
        if which == 2 {
            return self.handle_key_add_category(key);
        }
        if which == 3 {
            return self.handle_key_add_warehouse(key);
        }
        if key.code == KeyCode::Esc {
            self.input_mode = InputMode::Normal;
        }
        None
    }

    /// Handles a key in normal mode through the key map.
    pub fn handle_key_normal(&mut self, key: KeyPress) -> (res: Option<Command>)
        requires
            old(self).wf(),
        ensures
            normal_ok(*old(self), key, *final(self), res),
            final(self).wf(),
    {
        let action = match self.keymap.resolve(key) {
            Some(a) => a,
            None => { return None; },
        };
        if action == Action::Quit {
            self.should_quit = true;
            return None;
        }
        let on_item: Option<ItemId> = match &self.screen {
            Screen::ItemDetail(id) => Some(*id),
            _ => None,
        };
        let on_category = match &self.screen {
            Screen::CategoryDetail(id) => Some(*id),
            _ => None,
        };
        let on_warehouse = match &self.screen {
            Screen::WarehouseDetail(id) => Some(*id),
            _ => None,
        };
        let tag: u8 = match &self.screen {
            Screen::ItemList => 1,
            Screen::CategoryList => 2,
            Screen::WarehouseList => 3,
            _ => 0,
        };
        if tag == 1 {
            match action {
                Action::MoveDown => {
                    let last = if self.filtered.len() == 0 { 0 } else { self.filtered.len() - 1 };
                    let next = if self.item_selected == usize::MAX { usize::MAX } else { self.item_selected + 1 };
                    self.item_selected = if next <= last { next } else { last };
                },
                Action::MoveUp => {
                    self.item_selected = if self.item_selected == 0 { 0 } else { self.item_selected - 1 };
                },
                Action::Search => {
                    self.input_mode = InputMode::Searching;
                },
                Action::Select => {
                    if self.item_selected < self.filtered.len() {
                        let idx = self.filtered[self.item_selected];
                        if idx < self.items.len() {
                            let id = self.items[idx].item.id;
                            self.screen = Screen::ItemDetail(id);
                            self.item_detail = ItemDetailState::default();
                            return Some(Command::FetchMovements { item_id: Some(id), limit: 20, offset: 0 });
                        }
                    }
                },
                Action::New => {
                    self.screen = Screen::AddItem(ItemFormState::default());
                    self.input_mode = InputMode::Editing;
                },
                _ => {},
            }
            return None;
        }
        if tag == 2 {
            match action {
                Action::MoveDown => {
                    let last = if self.categories.len() == 0 { 0 } else { self.categories.len() - 1 };
                    let next = if self.category_selected == usize::MAX { usize::MAX } else { self.category_selected + 1 };
                    self.category_selected = if next <= last { next } else { last };
                },
                Action::MoveUp => {
                    self.category_selected = if self.category_selected == 0 { 0 } else { self.category_selected - 1 };
                },
                Action::Select => {
                    if self.category_selected < self.categories.len() {
                        self.screen = Screen::CategoryDetail(self.categories[self.category_selected].id);
                    }
                },
                Action::New => {
                    self.screen = Screen::AddCategory(CategoryFormState::default());
                    self.input_mode = InputMode::Editing;
                },
                _ => {},
            }
            return None;
        }
        if tag == 3 {
            match action {
                Action::MoveDown => {
                    let last = if self.warehouses.len() == 0 { 0 } else { self.warehouses.len() - 1 };
                    let next = if self.warehouse_selected == usize::MAX { usize::MAX } else { self.warehouse_selected + 1 };
                    self.warehouse_selected = if next <= last { next } else { last };
                },
                Action::MoveUp => {
                    self.warehouse_selected = if self.warehouse_selected == 0 { 0 } else { self.warehouse_selected - 1 };
                },
                Action::Select => {
                    if self.warehouse_selected < self.warehouses.len() {
                        self.screen = Screen::WarehouseDetail(self.warehouses[self.warehouse_selected].id);
                    }
                },
                Action::New => {
                    self.screen = Screen::AddWarehouse(WarehouseFormState::default());
                    self.input_mode = InputMode::Editing;
                },
                _ => {},
            }
            return None;
        }
        if let Some(id) = on_item {
            match action {
                Action::Delete => {
                    self.pending_delete = Some(PendingDelete::Item(id));
                    self.input_mode = InputMode::ConfirmingDelete;
                },
                Action::Edit => {
                    if let Some(i) = find_item(&self.items, id) {
                        proof { crate::tui::lists::lemma_index_where_spec(self.items@, is_item(id)); }
                        let entry = &self.items[i].item;
                        let category_index = match find_category(&self.categories, entry.category_id) {
                            Some(j) => {
                                let ncat = self.categories.len();
                                proof { crate::tui::lists::lemma_index_where_spec(self.categories@, is_category(entry.category_id)); }
                                assert(j < ncat);
                                j
                            },
                            None => 0,
                        };
                        let form = ItemFormState {
                            sku: new_input(crate::text::copy_str(entry.sku.0.as_str())),
                            name: new_input(crate::text::copy_str(entry.name.as_str())),
                            unit_cost: new_input(i64_text(entry.unit_cost.0)),
                            category_index,
                            focused_field: 0,
                            error: None,
                            editing_id: Some(id),
                        };
                        self.screen = Screen::AddItem(form);
                        self.input_mode = InputMode::Editing;
                    }
                },
                Action::Cancel => {
                    self.screen = Screen::ItemList;
                },
                _ => {},
            }
            return None;
        }
        if let Some(id) = on_category {
            match action {
                Action::Delete => {
                    self.pending_delete = Some(PendingDelete::Category(id));
                    self.input_mode = InputMode::ConfirmingDelete;
                },
                Action::Edit => {
                    if let Some(i) = find_category(&self.categories, id) {
                        proof { crate::tui::lists::lemma_index_where_spec(self.categories@, is_category(id)); }
                        let c = &self.categories[i];
                        let description = match &c.description {
                            Some(d) => crate::text::copy_str(d.as_str()),
                            None => String::new(),
                        };
                        let form = CategoryFormState {
                            name: new_input(crate::text::copy_str(c.name.0.as_str())),
                            description: new_input(description),
                            focused_field: 0,
                            error: None,
                            editing_id: Some(id),
                        };
                        self.screen = Screen::AddCategory(form);
                        self.input_mode = InputMode::Editing;
                    }
                },
                Action::Cancel => {
                    self.screen = Screen::CategoryList;
                },
                _ => {},
            }
            return None;
        }
        if let Some(id) = on_warehouse {
            match action {
                Action::Delete => {
                    self.pending_delete = Some(PendingDelete::Warehouse(id));
                    self.input_mode = InputMode::ConfirmingDelete;
                },
                Action::Edit => {
                    if let Some(i) = find_warehouse(&self.warehouses, id) {
                        proof { crate::tui::lists::lemma_index_where_spec(self.warehouses@, is_warehouse(id)); }
                        let w = &self.warehouses[i];
                        let location = match &w.location {
                            Some(l) => crate::text::copy_str(l.as_str()),
                            None => String::new(),
                        };
                        let form = WarehouseFormState {
                            name: new_input(crate::text::copy_str(w.name.0.as_str())),
                            location: new_input(location),
                            focused_field: 0,
                            error: None,
                            editing_id: Some(id),
                        };
                        self.screen = Screen::AddWarehouse(form);
                        self.input_mode = InputMode::Editing;
                    }
                },
                Action::Cancel => {
                    self.screen = Screen::WarehouseList;
                },
                _ => {},
            }
            return None;
        }
        None
    }

    /// Handles a key press: screen switching by digit in normal mode, else the handler of
    /// the current mode.
    pub fn handle_key(&mut self, key: KeyPress) -> (res: Option<Command>)
        requires
            old(self).wf(),
        ensures
            key_ok(*old(self), key, *final(self), res),
            final(self).wf(),
    {
        if self.input_mode == InputMode::Normal {
            if let KeyCode::Char(c) = key.code {
                if c == '1' {
                    self.screen = Screen::Dashboard;
                    return None;
                } else if c == '2' {
                    self.screen = Screen::ItemList;
                    return None;
                } else if c == '3' {
                    self.screen = Screen::CategoryList;
                    return None;
                } else if c == '4' {
                    self.screen = Screen::WarehouseList;
                    return None;
                } else if c == '5' {
                    self.screen = Screen::StockMovementLog;
                    return Some(Command::FetchMovements { item_id: None, limit: 20, offset: 0 });
                } else if c == '6' {
                    self.screen = Screen::Settings;
                    return None;
                }
            }
        }
        match self.input_mode {
            InputMode::Normal => self.handle_key_normal(key),
            InputMode::Editing => self.handle_key_editing(key),
            InputMode::Searching => self.handle_key_searching(key),
            InputMode::ConfirmingDelete => self.handle_key_confirming_delete(key),
        }
    }
}

} // verus!
