//! The front end's state: forms, screens, modes, messages and commands.
use vstd::prelude::*;
use crate::category::Category;
use crate::ids::{CategoryId, ItemId, WarehouseId};
use crate::item::{ItemFilter, ItemWithStock};
use crate::stock::{StockMovement, StockMovementRecord};
use crate::storage::inputs::{
    CreateCategoryInput, CreateItemInput, CreateWarehouseInput, UpdateCategoryInput,
    UpdateItemInput, UpdateWarehouseInput,
};
use crate::tui::input::{empty_input, input_cursor, input_text};
use crate::tui::keys::{default_bindings, KeyMap, KeyPress};
use crate::warehouse::Warehouse;

verus! {

/// The text field holds nothing, with the cursor at the start.
pub open spec fn is_empty_field(i: tui_input::Input) -> bool {
    input_text(i) == Seq::<char>::empty() && input_cursor(i) == 0
}

/// `o` holds a text equal to `t`.
pub open spec fn text_is(o: Option<String>, t: Seq<char>) -> bool {
    o matches Some(s) && s@ == t
}

/// The form for a new item (or, with `editing_id`, an existing one).
pub struct ItemFormState {
    pub sku: tui_input::Input,
    pub name: tui_input::Input,
    pub unit_cost: tui_input::Input,
    pub category_index: usize,
    pub focused_field: usize,
    pub error: Option<String>,
    pub editing_id: Option<ItemId>,
}

impl ItemFormState {
    /// An untouched form: empty fields, first field focused, no error.
    pub open spec fn is_fresh(&self) -> bool {
        is_empty_field(self.sku) && is_empty_field(self.name) && is_empty_field(self.unit_cost)
            && self.category_index == 0 && self.focused_field == 0 && self.error is None
            && self.editing_id is None
    }
}

impl Default for ItemFormState {
    fn default() -> (f: Self)
        ensures
            f.is_fresh(),
    {
        ItemFormState {
            sku: empty_input(),
            name: empty_input(),
            unit_cost: empty_input(),
            category_index: 0,
            focused_field: 0,
            error: None,
            editing_id: None,
        }
    }
}

/// The form for a new category (or, with `editing_id`, an existing one).
pub struct CategoryFormState {
    pub name: tui_input::Input,
    pub description: tui_input::Input,
    pub focused_field: usize,
    pub error: Option<String>,
    pub editing_id: Option<CategoryId>,
}

impl CategoryFormState {
    /// An untouched form: empty fields, first field focused, no error.
    pub open spec fn is_fresh(&self) -> bool {
        is_empty_field(self.name) && is_empty_field(self.description) && self.focused_field == 0
            && self.error is None && self.editing_id is None
    }
}

impl Default for CategoryFormState {
    fn default() -> (f: Self)
        ensures
            f.is_fresh(),
    {
        CategoryFormState {
            name: empty_input(),
            description: empty_input(),
            focused_field: 0,
            error: None,
            editing_id: None,
        }
    }
}

/// The form for a new warehouse (or, with `editing_id`, an existing one).
pub struct WarehouseFormState {
    pub name: tui_input::Input,
    pub location: tui_input::Input,
    pub focused_field: usize,
    pub error: Option<String>,
    pub editing_id: Option<WarehouseId>,
}

impl WarehouseFormState {
    /// An untouched form: empty fields, first field focused, no error.
    pub open spec fn is_fresh(&self) -> bool {
        is_empty_field(self.name) && is_empty_field(self.location) && self.focused_field == 0
            && self.error is None && self.editing_id is None
    }
}

impl Default for WarehouseFormState {
    fn default() -> (f: Self)
        ensures
            f.is_fresh(),
    {
        WarehouseFormState {
            name: empty_input(),
            location: empty_input(),
            focused_field: 0,
            error: None,
            editing_id: None,
        }
    }
}

/// Which kind of stock movement the item detail screen records.
#[derive(Debug, Clone, Copy, PartialEq, Eq, Structural)]
pub enum AdjustKind {
    Inbound,
    Outbound,
    Adjustment,
}

/// The kind after `k` in the cycle inbound, outbound, adjustment.
pub open spec fn next_kind(k: AdjustKind) -> AdjustKind {
    match k {
        AdjustKind::Inbound => AdjustKind::Outbound,
        AdjustKind::Outbound => AdjustKind::Adjustment,
        AdjustKind::Adjustment => AdjustKind::Inbound,
    }
}

/// The label shown for a kind.
pub open spec fn kind_label(k: AdjustKind) -> Seq<char> {
    match k {
        AdjustKind::Inbound => "Inbound (+)"@,
        AdjustKind::Outbound => "Outbound (-)"@,
        AdjustKind::Adjustment => "Adjustment (±)"@,
    }
}

impl AdjustKind {
    /// The next kind: inbound, then outbound, then adjustment, then inbound again.
    pub fn next(self) -> (k: Self)
        ensures
            k == next_kind(self),
    {
        match self {
            AdjustKind::Inbound => AdjustKind::Outbound,
            AdjustKind::Outbound => AdjustKind::Adjustment,
            AdjustKind::Adjustment => AdjustKind::Inbound,
        }
    }

    /// The label shown for the kind.
    pub fn label(self) -> (res: &'static str)
        ensures
            res@ == kind_label(self),
    {
        match self {
            AdjustKind::Inbound => "Inbound (+)",
            AdjustKind::Outbound => "Outbound (-)",
            AdjustKind::Adjustment => "Adjustment (±)",
        }
    }
}

/// The stock adjustment panel of the item detail screen.
pub struct ItemDetailState {
    pub adjust_input: tui_input::Input,
    pub kind: AdjustKind,
    pub error: Option<String>,
}

impl ItemDetailState {
    /// An untouched panel: empty quantity, inbound, no error.
    pub open spec fn is_fresh(&self) -> bool {
        is_empty_field(self.adjust_input) && self.kind == AdjustKind::Inbound && self.error is None
    }
}

impl Default for ItemDetailState {
    fn default() -> (d: Self)
        ensures
            d.is_fresh(),
    {
        ItemDetailState { adjust_input: empty_input(), kind: AdjustKind::Inbound, error: None }
    }
}

/// What a confirmed delete will remove.
#[derive(Debug, Clone, Copy, PartialEq, Eq, Structural)]
pub enum PendingDelete {
    Item(ItemId),
    Category(CategoryId),
    Warehouse(WarehouseId),
}

/// The screen shown.
pub enum Screen {
    Dashboard,
    ItemList,
    AddItem(ItemFormState),
    ItemDetail(ItemId),
    CategoryList,
    AddCategory(CategoryFormState),
    CategoryDetail(CategoryId),
    WarehouseList,
    AddWarehouse(WarehouseFormState),
    WarehouseDetail(WarehouseId),
    StockMovementLog,
    Settings,
}

/// How keys are read: as actions, as typing into a form, as a search, or as the
/// answer to a delete confirmation.
#[derive(Debug, Clone, Copy, PartialEq, Eq, Structural)]
pub enum InputMode {
    Normal,
    Editing,
    Searching,
    ConfirmingDelete,
}

/// What the front end is told: a tick, a key press, or the outcome of a command.
pub enum Message {
    Tick,
    KeyPressed(KeyPress),
    ItemsLoaded(Vec<ItemWithStock>),
    ItemSaved(ItemWithStock),
    ItemUpdated(ItemWithStock),
    ItemDeleted(ItemId),
    CategoriesLoaded(Vec<Category>),
    CategorySaved(Category),
    CategoryUpdated(Category),
    CategoryDeleted(CategoryId),
    WarehousesLoaded(Vec<Warehouse>),
    WarehouseSaved(Warehouse),
    WarehouseUpdated(Warehouse),
    WarehouseDeleted(WarehouseId),
    StockUpdated(ItemId, u32),
    MovementsLoaded(Vec<StockMovementRecord>),
    Error(String),
    /// Nothing happened.
    Nothing,
}

/// What the front end asks the storage task to do.
pub enum Command {
    FetchItems(ItemFilter),
    SaveItem(CreateItemInput),
    UpdateItem(UpdateItemInput),
    DeleteItem(ItemId),
    FetchCategories,
    SaveCategory(CreateCategoryInput),
    UpdateCategory(UpdateCategoryInput),
    DeleteCategory(CategoryId),
    FetchWarehouses,
    SaveWarehouse(CreateWarehouseInput),
    UpdateWarehouse(UpdateWarehouseInput),
    DeleteWarehouse(WarehouseId),
    FetchMovements { item_id: Option<ItemId>, limit: u32, offset: u32 },
    RecordMovement { item_id: ItemId, warehouse_id: WarehouseId, movement: StockMovement },
    /// Nothing to do.
    Nothing,
}

/// The whole state of the front end.
pub struct App {
    pub screen: Screen,
    pub items: Vec<ItemWithStock>,
    pub categories: Vec<Category>,
    pub warehouses: Vec<Warehouse>,
    pub item_selected: usize,
    pub category_selected: usize,
    pub warehouse_selected: usize,
    pub selected_warehouse: Option<WarehouseId>,
    pub input_mode: InputMode,
    pub status: Option<String>,
    pub should_quit: bool,
    pub movement_page: Vec<StockMovementRecord>,
    pub item_detail: ItemDetailState,
    pub pending_delete: Option<PendingDelete>,
    pub search_input: tui_input::Input,
    pub filtered: Vec<usize>,
    pub keymap: KeyMap,
}

impl App {
    /// The state at start: the dashboard, nothing loaded, nothing selected.
    pub open spec fn is_initial(&self) -> bool {
        &&& self.screen is Dashboard
        &&& self.items@.len() == 0
        &&& self.categories@.len() == 0
        &&& self.warehouses@.len() == 0
        &&& self.item_selected == 0
        &&& self.category_selected == 0
        &&& self.warehouse_selected == 0
        &&& self.selected_warehouse is None
        &&& self.input_mode == InputMode::Normal
        &&& self.status is None
        &&& !self.should_quit
        &&& self.movement_page@.len() == 0
        &&& self.item_detail.is_fresh()
        &&& self.pending_delete is None
        &&& is_empty_field(self.search_input)
        &&& self.filtered@.len() == 0
        &&& self.keymap.0@ == default_bindings()
    }

    /// A fresh front end.
    pub fn new() -> (app: Self)
        ensures
            app.is_initial(),
    {
        App {
            screen: Screen::Dashboard,
            items: Vec::new(),
            categories: Vec::new(),
            warehouses: Vec::new(),
            item_selected: 0,
            category_selected: 0,
            warehouse_selected: 0,
            selected_warehouse: None,
            input_mode: InputMode::Normal,
            status: None,
            should_quit: false,
            movement_page: Vec::new(),
            item_detail: ItemDetailState::default(),
            pending_delete: None,
            search_input: empty_input(),
            filtered: Vec::new(),
            keymap: KeyMap::default(),
        }
    }
}

} // verus!
