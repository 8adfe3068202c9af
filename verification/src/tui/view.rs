//! What the screens show that is computed rather than drawn: the key hints, and the
//! dashboard's figures.
use vstd::prelude::*;
use crate::item::ItemWithStock;
use crate::stock::{movement_delta, MovementView, StockMovementRecord};
use crate::tui::state::{App, InputMode, Screen};

verus! {

/// The key hints for a screen in a mode.
pub open spec fn hints_text(screen: Screen, mode: InputMode) -> Seq<char> {
    if mode == InputMode::ConfirmingDelete {
        "y: confirm delete n / Esc: Cancel"@
    } else {
        match screen {
            Screen::ItemList => if mode == InputMode::Searching {
                "type to search items   Enter: lock in   Esc: clear"@
            } else {
                "j/k: move   Enter: view   n: new   /: search   1-6: switch screen   q: quit"@
            },
            Screen::ItemDetail(_) => "Enter: submit adjustment   Tab: change kind   d: delete   Esc: back"@,
            Screen::AddItem(_) => "Tab/Shift+Tab: field   ←/→: category   Enter: next/submit   Esc: cancel"@,
            Screen::CategoryList | Screen::WarehouseList =>
                "j/k: move   Enter: view   n: new   1-6: switch screen   q: quit"@,
            Screen::CategoryDetail(_) | Screen::WarehouseDetail(_) => "e: edit   d: delete   Esc: back"@,
            Screen::AddCategory(_) | Screen::AddWarehouse(_) =>
                "Tab/Shift+Tab: field   Enter: next/submit   Esc: cancel"@,
            _ => "1-6: switch screen   q: quit"@,
        }
    }
}

/// The key hints shown in the status bar for the current screen and mode.
pub fn hints_for(app: &App) -> (res: &'static str)
    ensures
        res@ == hints_text(app.screen, app.input_mode),
{
    if app.input_mode == InputMode::ConfirmingDelete {
        return "y: confirm delete n / Esc: Cancel";
    }
    match &app.screen {
        Screen::ItemList => if app.input_mode == InputMode::Searching {
            "type to search items   Enter: lock in   Esc: clear"
        } else {
            "j/k: move   Enter: view   n: new   /: search   1-6: switch screen   q: quit"
        },
        Screen::ItemDetail(_) => "Enter: submit adjustment   Tab: change kind   d: delete   Esc: back",
        Screen::AddItem(_) => "Tab/Shift+Tab: field   ←/→: category   Enter: next/submit   Esc: cancel",
        Screen::CategoryList | Screen::WarehouseList =>
            "j/k: move   Enter: view   n: new   1-6: switch screen   q: quit",
        Screen::CategoryDetail(_) | Screen::WarehouseDetail(_) => "e: edit   d: delete   Esc: back",
        Screen::AddCategory(_) | Screen::AddWarehouse(_) =>
            "Tab/Shift+Tab: field   Enter: next/submit   Esc: cancel",
        _ => "1-6: switch screen   q: quit",
    }
}

/// How many of the items are below their reorder threshold.
pub open spec fn low_count(items: Seq<ItemWithStock>) -> nat
    decreases items.len(),
{
    if items.len() == 0 {
        0
    } else {
        low_count(items.drop_last()) + if items.last().is_low() { 1nat } else { 0nat }
    }
}

/// The sum of the unit costs of the items, in kobo.
pub open spec fn cost_sum(items: Seq<ItemWithStock>) -> int
    decreases items.len(),
{
    if items.len() == 0 {
        0
    } else {
        cost_sum(items.drop_last()) + items.last().item.unit_cost.0
    }
}

/// Every partial sum of the unit costs fits in an `i64`.
pub open spec fn costs_fit(items: Seq<ItemWithStock>) -> bool {
    forall|k: int| 0 <= k <= items.len() ==> i64::MIN <= #[trigger] cost_sum(items.take(k)) <= i64::MAX
}

impl ItemWithStock {
    /// The item's total stock is under its reorder threshold (shown as LOW).
    pub fn below_threshold(&self) -> (res: bool)
        ensures
            res == self.is_low(),
    {
        self.qty < self.item.reorder_threshold
    }
}

/// Counting by `low_count` agrees with filtering by `pred` when `pred` says "below the
/// reorder threshold".
proof fn lemma_low_count_is_filter(items: Seq<ItemWithStock>, pred: spec_fn(ItemWithStock) -> bool)
    requires
        forall|e: ItemWithStock| #[trigger] pred(e) == (e.qty < e.item.reorder_threshold),
    ensures
        low_count(items) == items.filter(pred).len(),
    decreases items.len(),
{
    reveal(Seq::filter);
    if items.len() > 0 {
        lemma_low_count_is_filter(items.drop_last(), pred);
    }
}

/// The Low Stock figure counts exactly the items whose total quantity is under their
/// reorder threshold, out-of-stock ones included: it is the length of the list filtered
/// by that test.
pub proof fn law_low_count_counts_items_below_threshold(items: Seq<ItemWithStock>)
    ensures
        low_count(items) == items.filter(|e: ItemWithStock| e.qty < e.item.reorder_threshold).len(),
{
    lemma_low_count_is_filter(items, |e: ItemWithStock| e.qty < e.item.reorder_threshold);
}

/// The number of items below their reorder threshold (the dashboard's "Low Stock").
pub fn low_stock_count(items: &Vec<ItemWithStock>) -> (n: usize)
    ensures
        n == low_count(items@),
{
    let len = items.len();
    let mut n: usize = 0;
    let mut i: usize = 0;
    while i < len
        invariant
            len == items@.len(),
            i <= len,
            n == low_count(items@.take(i as int)),
            n <= i,
        decreases len - i,
    {
        proof {
            assert(items@.take(i + 1).drop_last() =~= items@.take(i as int));
        }
        if items[i].below_threshold() {
            n = n + 1;
        }
        i = i + 1;
    }
    assert(items@.take(len as int) =~= items@);
    n
}

/// The Inventory Value figure adds up unit costs: the value of no items is zero, of one
/// item its unit cost, and of two lists put together the sum of their values.
pub proof fn law_cost_sum_adds_unit_costs(a: Seq<ItemWithStock>, b: Seq<ItemWithStock>, e: ItemWithStock)
    ensures
        cost_sum(Seq::empty()) == 0,
        cost_sum(seq![e]) == e.item.unit_cost.0,
        cost_sum(a + b) == cost_sum(a) + cost_sum(b),
    decreases b.len(),
{
    assert(seq![e].drop_last() =~= Seq::<ItemWithStock>::empty());
    if b.len() > 0 {
        law_cost_sum_adds_unit_costs(a, b.drop_last(), e);
        assert((a + b).drop_last() =~= a + b.drop_last());
    } else {
        assert(a + b =~= a);
    }
}

/// The sum of the unit costs of the items (the dashboard's "Inventory Value"), in kobo.
pub fn inventory_value(items: &Vec<ItemWithStock>) -> (total: i64)
    requires
        costs_fit(items@),
    ensures
        total == cost_sum(items@),
{
    let len = items.len();
    let mut total: i64 = 0;
    let mut i: usize = 0;
    assert(items@.take(0) =~= Seq::<ItemWithStock>::empty());
    while i < len
        invariant
            len == items@.len(),
            i <= len,
            costs_fit(items@),
            total == cost_sum(items@.take(i as int)),
        decreases len - i,
    {
        proof {
            assert(items@.take(i + 1).drop_last() =~= items@.take(i as int));
            assert(i64::MIN <= cost_sum(items@.take(i + 1)) <= i64::MAX);
        }
        total = total + items[i].item.unit_cost.0;
        i = i + 1;
    }
    assert(items@.take(len as int) =~= items@);
    total
}

/// The size of a movement: its delta without sign.
pub open spec fn movement_size(r: StockMovementRecord) -> int {
    let d = movement_delta(r.movement@);
    if d < 0 { -d } else { d }
}

/// The size the trend line shows for a movement is how many units moved: the quantity of
/// an inbound or outbound movement, and the amount of an adjustment either way.
pub proof fn law_movement_size_is_units_moved(r: StockMovementRecord)
    ensures
        match r.movement@ {
            MovementView::Inbound { qty, .. } => movement_size(r) == qty as int,
            MovementView::Outbound { qty, .. } => movement_size(r) == qty as int,
            MovementView::Adjustment { delta, .. } => movement_size(r) == if delta < 0 { -(delta as int) } else { delta as int },
        },
{
}

/// The sizes of the recent movements, oldest first (the dashboard's trend line; the page
/// holds the newest first).
pub fn recent_movement_trend(page: &Vec<StockMovementRecord>) -> (trend: Vec<u64>)
    ensures
        trend@.len() == page@.len(),
        forall|k: int| 0 <= k < trend@.len() ==> trend@[k] as int == movement_size(#[trigger] page@[page@.len() - 1 - k]),
{
    let len = page.len();
    let mut trend: Vec<u64> = Vec::new();
    let mut i: usize = len;
    while i > 0
        invariant
            len == page@.len(),
            i <= len,
            trend@.len() == len - i,
            forall|k: int| 0 <= k < trend@.len() ==> trend@[k] as int == movement_size(#[trigger] page@[len - 1 - k]),
        decreases i,
    {
        i = i - 1;
        let d = page[i].movement.quantity_delta();
        let size: u64 = if d < 0 { (-(d as i128)) as u64 } else { d as u64 };
        trend.push(size);
    }
    trend
}

} // verus!
