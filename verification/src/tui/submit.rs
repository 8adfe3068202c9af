//! Turning a filled-in form into a storage command, or into the error shown on it.
use vstd::prelude::*;
use crate::category::{name_length_ok, CategoryName};
use crate::error::{validation_error_text, ValidationError};
use crate::ids::{CategoryId, ItemId, WarehouseId};
use crate::money::Money;
use crate::number::{parse_i32, parse_i64, parse_u32, parsed_in_range};
use crate::sku::{all_sku_chars, sku_accepts, sku_normal, Sku};
use crate::stock::{MovementView, StockMovement};
use crate::storage::inputs::{
    CreateCategoryInput, CreateItemInput, CreateWarehouseInput, UpdateCategoryInput, UpdateWarehouseInput,
};
use crate::text::{copy_str, is_blank, str_is_blank, utf8_len};
use crate::tui::input::{input_text, input_value};
use crate::tui::state::{
    AdjustKind, App, CategoryFormState, Command, ItemDetailState, ItemFormState, Screen, WarehouseFormState,
    text_is,
};
use crate::warehouse::WarehouseName;

verus! {

/// The text of the error `Sku::parse` gives for a rejected raw SKU.
pub open spec fn sku_error_text(raw: Seq<char>) -> Seq<char> {
    if all_sku_chars(raw) {
        validation_error_text(ValidationError::InvalidSkuLength(utf8_len(raw) as usize))
    } else {
        "invalid SKU format: "@ + raw
    }
}

/// An optional text field's value: `None` when blank, else the text as typed.
pub open spec fn optional_text(o: Option<String>, typed: Seq<char>) -> bool {
    if is_blank(typed) { o is None } else { text_is(o, typed) }
}

/// What submitting the item form does to the state and what it asks for.
pub open spec fn item_submit_ok(old: App, new: App, res: Option<Command>) -> bool {
    match old.screen {
        Screen::AddItem(f) => {
            let sku = input_text(f.sku);
            let name = input_text(f.name);
            let cost = parsed_in_range(input_text(f.unit_cost), true, i64::MIN as int, i64::MAX as int);
            &&& new == App { screen: new.screen, ..old }
            &&& new.screen matches Screen::AddItem(g) && g == ItemFormState { error: g.error, ..f } && {
                if !sku_accepts(sku) {
                    text_is(g.error, sku_error_text(sku)) && res is None
                } else if is_blank(name) {
                    text_is(g.error, "name is required"@) && res is None
                } else if cost is None {
                    text_is(g.error, "unit cost must be a whole number (kobo)"@) && res is None
                } else if f.category_index >= old.categories@.len() {
                    text_is(g.error, "no category available — create one first"@) && res is None
                } else {
                    &&& g.error is None
                    &&& res matches Some(Command::SaveItem(c))
                    &&& c.sku.0@ == sku_normal(sku)
                    &&& c.name@ == name
                    &&& c.description is None
                    &&& c.category_id == old.categories@[f.category_index as int].id
                    &&& c.unit_cost.0 == cost->0
                    &&& c.reorder_threshold == 0
                }
            }
        },
        _ => new == old && res is None,
    }
}

/// What submitting the category form does to the state and what it asks for.
pub open spec fn category_submit_ok(old: App, new: App, res: Option<Command>) -> bool {
    match old.screen {
        Screen::AddCategory(f) => {
            let name = input_text(f.name);
            let desc = input_text(f.description);
            &&& new == App { screen: new.screen, ..old }
            &&& new.screen matches Screen::AddCategory(g) && g == CategoryFormState { error: g.error, ..f } && {
                if !name_length_ok(name) {
                    text_is(g.error, validation_error_text(ValidationError::InvalidCategoryNameLength(name.len() as usize)))
                        && res is None
                } else {
                    &&& g.error is None
                    &&& match f.editing_id {
                        Some(id) => res matches Some(Command::UpdateCategory(u)) && u.id == id
                            && (u.name matches Some(n) && n.0@ == name) && optional_text(u.description, desc),
                        None => res matches Some(Command::SaveCategory(c)) && c.name.0@ == name
                            && optional_text(c.description, desc),
                    }
                }
            }
        },
        _ => new == old && res is None,
    }
}

/// What submitting the warehouse form does to the state and what it asks for.
pub open spec fn warehouse_submit_ok(old: App, new: App, res: Option<Command>) -> bool {
    match old.screen {
        Screen::AddWarehouse(f) => {
            let name = input_text(f.name);
            let loc = input_text(f.location);
            &&& new == App { screen: new.screen, ..old }
            &&& new.screen matches Screen::AddWarehouse(g) && g == WarehouseFormState { error: g.error, ..f } && {
                if !name_length_ok(name) {
                    text_is(g.error, validation_error_text(ValidationError::InvalidWarehouseNameLength(name.len() as usize)))
                        && res is None
                } else {
                    &&& g.error is None
                    &&& match f.editing_id {
                        Some(id) => res matches Some(Command::UpdateWarehouse(u)) && u.id == id
                            && (u.name matches Some(n) && n.0@ == name) && optional_text(u.location, loc),
                        None => res matches Some(Command::SaveWarehouse(c)) && c.name.0@ == name
                            && optional_text(c.location, loc),
                    }
                }
            }
        },
        _ => new == old && res is None,
    }
}

/// The reason recorded for a movement entered by hand.
pub open spec fn manual_reason() -> Seq<char> {
    "manual adjustment"@
}

/// What submitting the stock adjustment panel of item `item_id` does and asks for.
pub open spec fn stock_submit_ok(old: App, item_id: ItemId, new: App, res: Option<Command>) -> bool {
    let d = old.item_detail;
    let raw = input_text(d.adjust_input);
    &&& new == App { item_detail: new.item_detail, ..old }
    &&& new.item_detail == ItemDetailState { error: new.item_detail.error, ..d }
    &&& match old.selected_warehouse {
        None => text_is(new.item_detail.error, "no warehouse available"@) && res is None,
        Some(w) => {
            let parsed = match d.kind {
                AdjustKind::Adjustment => parsed_in_range(raw, true, i32::MIN as int, i32::MAX as int),
                _ => parsed_in_range(raw, false, 0, u32::MAX as int),
            };
            match parsed {
                None => res is None && text_is(new.item_detail.error, match d.kind {
                    AdjustKind::Adjustment => "enter a whole number (e.g. -3 or 5)"@,
                    _ => "enter a whole, non-negative quantity"@,
                }),
                Some(v) => {
                    &&& new.item_detail.error is None
                    &&& res matches Some(Command::RecordMovement { item_id: i, warehouse_id: wh, movement: m })
                    &&& i == item_id && wh == w
                    &&& m@ == match d.kind {
                        AdjustKind::Inbound => MovementView::Inbound { qty: v as u32, reason: manual_reason() },
                        AdjustKind::Outbound => MovementView::Outbound { qty: v as u32, reason: manual_reason() },
                        AdjustKind::Adjustment => MovementView::Adjustment { delta: v as i32, reason: manual_reason() },
                    }
                },
            }
        },
    }
}

fn optional_field(typed: &str) -> (res: Option<String>)
    ensures
        optional_text(res, typed@),
{
    if str_is_blank(typed) { None } else { Some(copy_str(typed)) }
}

fn manual_reason_text() -> (res: String)
    ensures
        res@ == manual_reason(),
{
    copy_str("manual adjustment")
}

impl App {
    /// Validates the item form and asks for the new item to be saved; on a validation
    /// failure the form shows the error instead.
    pub fn try_submit_add_item_form(&mut self) -> (res: Option<Command>)
        ensures
            item_submit_ok(*old(self), *final(self), res),
    {
        let mut screen = Screen::Dashboard;
        std::mem::swap(&mut screen, &mut self.screen);
        let mut form = match screen {
            Screen::AddItem(form) => form,
            other => {
                self.screen = other;
                return None;
            },
        };
        form.error = None;
        let sku = match Sku::parse(input_value(&form.sku)) {
            Ok(sku) => sku,
            Err(e) => {
                form.error = Some(e.to_string());
                self.screen = Screen::AddItem(form);
                return None;
            },
        };
        if str_is_blank(input_value(&form.name)) {
            form.error = Some(copy_str("name is required"));
            self.screen = Screen::AddItem(form);
            return None;
        }
        let unit_cost = match parse_i64(input_value(&form.unit_cost)) {
            Some(v) => v,
            None => {
                form.error = Some(copy_str("unit cost must be a whole number (kobo)"));
                self.screen = Screen::AddItem(form);
                return None;
            },
        };
        if form.category_index >= self.categories.len() {
            form.error = Some(copy_str("no category available — create one first"));
            self.screen = Screen::AddItem(form);
            return None;
        }
        let category_id = self.categories[form.category_index].id;
        let input = CreateItemInput {
            id: ItemId::new(),
            sku,
            name: copy_str(input_value(&form.name)),
            description: None,
            category_id,
            unit_cost: Money(unit_cost),
            reorder_threshold: 0,
        };
        self.screen = Screen::AddItem(form);
        Some(Command::SaveItem(input))
    }

    /// Validates the category form and asks for the category to be saved (or, when
    /// editing, updated); on a validation failure the form shows the error instead.
    pub fn try_submit_category_form(&mut self) -> (res: Option<Command>)
        ensures
            category_submit_ok(*old(self), *final(self), res),
    {
        let mut screen = Screen::Dashboard;
        std::mem::swap(&mut screen, &mut self.screen);
        let mut form = match screen {
            Screen::AddCategory(form) => form,
            other => {
                self.screen = other;
                return None;
            },
        };
        form.error = None;
        let name = match CategoryName::parse(input_value(&form.name)) {
            Ok(n) => n,
            Err(e) => {
                form.error = Some(e.to_string());
                self.screen = Screen::AddCategory(form);
                return None;
            },
        };
        let description = optional_field(input_value(&form.description));
        let editing = form.editing_id;
        self.screen = Screen::AddCategory(form);
        match editing {
            Some(id) => Some(Command::UpdateCategory(UpdateCategoryInput { id, name: Some(name), description })),
            None => Some(Command::SaveCategory(CreateCategoryInput { id: CategoryId::new(), name, description })),
        }
    }

    /// Validates the warehouse form and asks for the warehouse to be saved (or, when
    /// editing, updated); on a validation failure the form shows the error instead.
    pub fn try_submit_warehouse_form(&mut self) -> (res: Option<Command>)
        ensures
            warehouse_submit_ok(*old(self), *final(self), res),
    {
        let mut screen = Screen::Dashboard;
        std::mem::swap(&mut screen, &mut self.screen);
        let mut form = match screen {
            Screen::AddWarehouse(form) => form,
            other => {
                self.screen = other;
                return None;
            },
        };
        form.error = None;
        let name = match WarehouseName::parse(input_value(&form.name)) {
            Ok(n) => n,
            Err(e) => {
                form.error = Some(e.to_string());
                self.screen = Screen::AddWarehouse(form);
                return None;
            },
        };
        let location = optional_field(input_value(&form.location));
        let editing = form.editing_id;
        self.screen = Screen::AddWarehouse(form);
        match editing {
            Some(id) => Some(Command::UpdateWarehouse(UpdateWarehouseInput { id, name: Some(name), location })),
            None => Some(Command::SaveWarehouse(CreateWarehouseInput { id: WarehouseId::new(), name, location })),
        }
    }

    /// Reads the quantity typed on the item detail screen and asks for the movement to be
    /// recorded in the selected warehouse; on bad input the panel shows an error instead.
    pub fn try_submit_stock_adjustment(&mut self, item_id: ItemId) -> (res: Option<Command>)
        ensures
            stock_submit_ok(*old(self), item_id, *final(self), res),
    {
        self.item_detail.error = None;
        let warehouse_id = match self.selected_warehouse {
            Some(w) => w,
            None => {
                self.item_detail.error = Some(copy_str("no warehouse available"));
                return None;
            },
        };
        let movement = match self.item_detail.kind {
            AdjustKind::Inbound => match parse_u32(input_value(&self.item_detail.adjust_input)) {
                Some(qty) => StockMovement::Inbound { qty, reason: manual_reason_text() },
                None => {
                    self.item_detail.error = Some(copy_str("enter a whole, non-negative quantity"));
                    return None;
                },
            },
            AdjustKind::Outbound => match parse_u32(input_value(&self.item_detail.adjust_input)) {
                Some(qty) => StockMovement::Outbound { qty, reason: manual_reason_text() },
                None => {
                    self.item_detail.error = Some(copy_str("enter a whole, non-negative quantity"));
                    return None;
                },
            },
            AdjustKind::Adjustment => match parse_i32(input_value(&self.item_detail.adjust_input)) {
                Some(delta) => StockMovement::Adjustment { delta, reason: manual_reason_text() },
                None => {
                    self.item_detail.error = Some(copy_str("enter a whole number (e.g. -3 or 5)"));
                    return None;
                },
            },
        };
        Some(Command::RecordMovement { item_id, warehouse_id, movement })
    }
}

} // verus!
