//! Properties of the front end that span its handlers.
use vstd::prelude::*;
use crate::tui::filter::{all_indices, is_fuzzy_order, score_of};
use crate::tui::handle::{key_ok, refiltered, sat_dec};
use crate::tui::lists::{lemma_index_where_spec, upserted};
use crate::tui::update::{selection_after_filter, update_ok};
use crate::tui::state::Message;
use crate::tui::input::input_text;
use crate::tui::keys::{lookup, Action, KeyBinding, KeyCode, KeyPress};
use crate::tui::state::{AdjustKind, App, Command, InputMode, PendingDelete, Screen};
use crate::tui::submit::stock_submit_ok;
use crate::tui::handle::add_item_ok;
use crate::number::written_integer;
use crate::stock::movement_delta;
use crate::ids::ItemId;

verus! {

/// The command deletes something.
pub open spec fn is_delete(c: Command) -> bool {
    c is DeleteItem || c is DeleteCategory || c is DeleteWarehouse
}

/// The pending delete that a delete command carries out.
pub open spec fn deletes(c: Command, p: Option<PendingDelete>) -> bool {
    match c {
        Command::DeleteItem(id) => p == Some(PendingDelete::Item(id)),
        Command::DeleteCategory(id) => p == Some(PendingDelete::Category(id)),
        Command::DeleteWarehouse(id) => p == Some(PendingDelete::Warehouse(id)),
        _ => false,
    }
}

/// Nothing is deleted without confirmation: a key press asks for a delete only when a
/// delete was pending and the key is `y`, and it asks for exactly the pending delete,
/// which it clears.
pub proof fn law_delete_needs_confirmation(old: App, key: KeyPress, new: App, res: Option<Command>)
    requires
        key_ok(old, key, new, res),
        res matches Some(c) && is_delete(c),
    ensures
        old.input_mode == InputMode::ConfirmingDelete,
        key.code == KeyCode::Char('y'),
        deletes(res->Some_0, old.pending_delete),
        new.pending_delete is None,
        new.input_mode == InputMode::Normal,
{
}

/// The front end only sets out to quit on the key the key map binds to `Quit`, in
/// normal mode.
pub proof fn law_quit_only_by_quit_key(old: App, key: KeyPress, new: App, res: Option<Command>)
    requires
        key_ok(old, key, new, res),
        !old.should_quit,
        new.should_quit,
    ensures
        old.input_mode == InputMode::Normal,
        lookup(old.keymap.0@, KeyBinding { code: key.code, modifiers: key.modifiers }) == Some(Action::Quit),
{
}

/// The search results only ever point at loaded items, each at most once.
pub proof fn law_search_results_in_range(before: App, after: App)
    requires
        refiltered(before, after),
        before.items@.len() <= usize::MAX,
    ensures
        forall|k: int| 0 <= k < after.filtered@.len() ==> (#[trigger] after.filtered@[k]) < before.items@.len(),
        forall|k: int, l: int| 0 <= k < l < after.filtered@.len() ==> after.filtered@[k] != after.filtered@[l],
{
    let q = input_text(before.search_input);
    let f = after.filtered@;
    if !crate::text::is_blank(q) {
        assert(is_fuzzy_order(before.items@, q, f));
        assert forall|k: int, l: int| 0 <= k < l < f.len() implies f[k] != f[l] by {
            assert(crate::tui::filter::ranks_before(
                crate::tui::filter::score_of(before.items@, q, f[k] as int)->Some_0, f[k] as int,
                crate::tui::filter::score_of(before.items@, q, f[l] as int)->Some_0, f[l] as int));
        }
    } else {
        assert(f == all_indices(before.items@.len()));
        assert forall|k: int| 0 <= k < f.len() implies (#[trigger] f[k]) < before.items@.len() by {
            assert(f[k] == k as usize);
        }
        assert forall|k: int, l: int| 0 <= k < l < f.len() implies f[k] != f[l] by {
            assert(f[k] == k as usize);
            assert(f[l] == l as usize);
        }
    }
}


/// The search results are distinct positions in a list of `n` items.
pub open spec fn results_in_range(f: Seq<usize>, n: nat) -> bool {
    &&& forall|k: int| 0 <= k < f.len() ==> (#[trigger] f[k]) < n
    &&& forall|k: int, l: int| 0 <= k < l < f.len() ==> f[k] != f[l]
}

/// Every selection lies within its list (or is 0 on an empty one), and the search
/// results are distinct positions in the item list.
pub open spec fn selections_in_range(app: App) -> bool {
    &&& app.item_selected <= sat_dec(app.filtered@.len())
    &&& app.category_selected <= sat_dec(app.categories@.len())
    &&& app.warehouse_selected <= sat_dec(app.warehouses@.len())
    &&& results_in_range(app.filtered@, app.items@.len())
}

/// Distinct positions in a list of `n` are at most `n` of them.
pub proof fn lemma_results_fit(f: Seq<usize>, n: nat)
    requires
        results_in_range(f, n),
    ensures
        f.len() <= n,
{
    let g = f.map_values(|x: usize| x as int);
    assert(g.no_duplicates()) by {
        assert forall|k: int, l: int| 0 <= k < g.len() && 0 <= l < g.len() && k != l implies g[k] != g[l] by {
            if k < l {
                assert(f[k] != f[l]);
            } else {
                assert(f[l] != f[k]);
            }
        }
    }
    g.unique_seq_to_set();
    vstd::set_lib::lemma_int_range(0, n as int);
    assert(g.to_set().subset_of(vstd::set_lib::set_int_range(0, n as int))) by {
        assert forall|x: int| g.to_set().contains(x) implies vstd::set_lib::set_int_range(0, n as int).contains(x) by {
            let k = choose|k: int| 0 <= k < g.len() && g[k] == x;
            assert(f[k] < n);
        }
    }
    vstd::set_lib::lemma_len_subset(g.to_set(), vstd::set_lib::set_int_range(0, n as int));
}

/// Recomputed search results are distinct positions in the item list.
proof fn lemma_refiltered_in_range(before: App, after: App)
    requires
        refiltered(before, after),
        before.items@.len() <= usize::MAX,
    ensures
        results_in_range(after.filtered@, after.items@.len()),
{
    law_search_results_in_range(before, after);
}

/// An upsert never shortens a list.
proof fn lemma_upserted_len<T>(s: Seq<T>, p: spec_fn(T) -> bool, v: T)
    ensures
        upserted(s, p, v).len() >= s.len(),
{
    lemma_index_where_spec(s, p);
}

/// A key press keeps the selections in range.
proof fn lemma_key_keeps_selections(old: App, key: KeyPress, new: App, res: Option<Command>)
    requires
        selections_in_range(old),
        key_ok(old, key, new, res),
        old.items@.len() <= usize::MAX,
    ensures
        selections_in_range(new),
{
    if old.input_mode == InputMode::Searching && !(key.code is Enter) {
        lemma_results_fit(old.filtered@, old.items@.len());
        lemma_refiltered_in_range(App { input_mode: new.input_mode, search_input: new.search_input, ..old }, new);
    }
}

/// Whatever message the front end takes in, its selections stay within their lists and
/// its search results stay distinct positions in the item list.
pub proof fn law_update_keeps_selections_in_range(old: App, msg: Message, new: App, res: Option<Command>)
    requires
        selections_in_range(old),
        update_ok(old, msg, new, res),
        old.items@.len() <= usize::MAX,
        new.items@.len() <= usize::MAX,
    ensures
        selections_in_range(new),
{
    match msg {
        Message::KeyPressed(key) => lemma_key_keeps_selections(old, key, new, res),
        Message::ItemsLoaded(items) => {
            lemma_refiltered_in_range(App { items, ..old }, App { item_selected: selection_after_filter(old), ..new });
        },
        Message::ItemSaved(v) | Message::ItemUpdated(v) => {
            lemma_results_fit(old.filtered@, old.items@.len());
            lemma_upserted_len(old.items@, crate::tui::lists::is_item(v.item.id), v);
            lemma_refiltered_in_range(App { items: new.items, ..old },
                App { screen: old.screen, input_mode: old.input_mode, ..new });
        },
        Message::ItemDeleted(_) => {
            lemma_refiltered_in_range(App { items: new.items, ..old },
                App { item_selected: selection_after_filter(old), screen: old.screen, input_mode: old.input_mode, status: old.status, ..new });
        },
        Message::CategorySaved(c) | Message::CategoryUpdated(c) => {
            lemma_upserted_len(old.categories@, crate::tui::lists::is_category(c.id), c);
        },
        Message::WarehouseSaved(w) | Message::WarehouseUpdated(w) => {
            lemma_upserted_len(old.warehouses@, crate::tui::lists::is_warehouse(w.id), w);
        },
        Message::StockUpdated(item_id, _) => {
            lemma_index_where_spec(old.items@, crate::tui::lists::is_item(item_id));
        },
        _ => {},
    }
}

/// A fresh front end has its selections in range.
pub proof fn law_initial_selections_in_range(app: App)
    requires
        app.is_initial(),
    ensures
        selections_in_range(app),
{
}

/// A stock adjustment moves stock the way its kind says. It asks to record a movement
/// exactly when a warehouse is selected and the typed text is a number the kind takes (a
/// `u32` for inbound and outbound, an `i32` for an adjustment). The movement is for the
/// item shown and the selected warehouse, and its signed change is the number typed:
/// added for inbound, taken away for outbound, as written for an adjustment.
pub proof fn law_stock_adjustment_moves_as_its_kind(old: App, item_id: ItemId, new: App, res: Option<Command>)
    requires
        stock_submit_ok(old, item_id, new, res),
    ensures
        res is None || (res matches Some(c) && c is RecordMovement),
        ({
            let raw = input_text(old.item_detail.adjust_input);
            let kind = old.item_detail.kind;
            let typed = written_integer(raw, kind == AdjustKind::Adjustment);
            let fits = match typed {
                Some(v) => if kind == AdjustKind::Adjustment {
                    i32::MIN <= v <= i32::MAX
                } else {
                    0 <= v <= u32::MAX
                },
                None => false,
            };
            &&& res is Some <==> old.selected_warehouse is Some && fits
            &&& res matches Some(Command::RecordMovement { item_id: i, warehouse_id: w, movement: m }) ==> {
                &&& i == item_id
                &&& old.selected_warehouse == Some(w)
                &&& kind == AdjustKind::Inbound ==> movement_delta(m@) == typed->Some_0 && movement_delta(m@) >= 0
                &&& kind == AdjustKind::Outbound ==> movement_delta(m@) == -typed->Some_0 && movement_delta(m@) <= 0
                &&& kind == AdjustKind::Adjustment ==> movement_delta(m@) == typed->Some_0
            }
        }),
{
}

/// Select on a list screen in normal mode opens the entry under the selection: the item
/// at the selected search result, or the selected category or warehouse.
pub proof fn law_select_opens_selected_entry(old: App, key: KeyPress, new: App, res: Option<Command>)
    requires
        key_ok(old, key, new, res),
        old.input_mode == InputMode::Normal,
        !(key.code matches KeyCode::Char(c) && '1' <= c && c <= '6'),
        lookup(old.keymap.0@, KeyBinding { code: key.code, modifiers: key.modifiers }) == Some(Action::Select),
    ensures
        old.screen is WarehouseList && old.warehouse_selected < old.warehouses@.len() ==>
            new.screen == Screen::WarehouseDetail(old.warehouses@[old.warehouse_selected as int].id),
        old.screen is CategoryList && old.category_selected < old.categories@.len() ==>
            new.screen == Screen::CategoryDetail(old.categories@[old.category_selected as int].id),
        old.screen is ItemList && old.item_selected < old.filtered@.len()
            && old.filtered@[old.item_selected as int] < old.items@.len() ==>
            new.screen == Screen::ItemDetail(old.items@[old.filtered@[old.item_selected as int] as int].item.id),
{
}

/// On the item form's category field with `n` categories, Left picks the previous
/// category and Right the next, both wrapping round: Left takes the index `i` to
/// `(i + n - 1) mod n` and Right to `(i + 1) mod n`.
pub proof fn law_category_picker_steps(old: App, key: KeyPress, new: App, res: Option<Command>)
    requires
        add_item_ok(old, key, new, res),
        key.code is Left || key.code is Right,
        old.screen matches Screen::AddItem(f) && f.focused_field == 3 && f.category_index < old.categories@.len(),
        old.categories@.len() <= usize::MAX,
    ensures
        ({
            let n = old.categories@.len() as int;
            let i = old.screen->AddItem_0.category_index as int;
            &&& new.screen matches Screen::AddItem(g)
            &&& key.code is Left ==> new.screen->AddItem_0.category_index as int == (i + n - 1) % n
            &&& key.code is Right ==> new.screen->AddItem_0.category_index as int == (i + 1) % n
            &&& new.categories == old.categories
        }),
{
    let n = old.categories@.len() as int;
    let i = old.screen->AddItem_0.category_index as int;
    if i == 0 {
        assert((i + n - 1) % n == n - 1) by (nonlinear_arith)
            requires i == 0, n > 0;
    } else {
        assert((i + n - 1) % n == i - 1) by (nonlinear_arith)
            requires 0 < i < n;
    }
}

/// Left then Right on the item form's category field (or Right then Left) comes back to
/// the category it started from.
pub proof fn law_category_picker_round_trip(
    a: App, k1: KeyPress, b: App, r1: Option<Command>, k2: KeyPress, c: App, r2: Option<Command>,
)
    requires
        add_item_ok(a, k1, b, r1),
        add_item_ok(b, k2, c, r2),
        (k1.code is Left && k2.code is Right) || (k1.code is Right && k2.code is Left),
        a.screen matches Screen::AddItem(f) && f.focused_field == 3 && f.category_index < a.categories@.len(),
        a.categories@.len() <= usize::MAX,
    ensures
        c.screen matches Screen::AddItem(h) && h.category_index == a.screen->AddItem_0.category_index,
{
    law_category_picker_steps(a, k1, b, r1);
    let n = a.categories@.len() as int;
    let i = a.screen->AddItem_0.category_index as int;
    let j = b.screen->AddItem_0.category_index as int;
    assert(0 <= j < n) by {
        if k1.code is Left { assert((i + n - 1) % n < n); } else { assert((i + 1) % n < n); }
    }
    law_category_picker_steps(b, k2, c, r2);
    if k1.code is Left {
        assert(((i + n - 1) % n + 1) % n == i) by (nonlinear_arith)
            requires 0 <= i < n;
    } else {
        assert(((i + 1) % n + n - 1) % n == i) by (nonlinear_arith)
            requires 0 <= i < n;
    }
}

/// Moving down a list in normal mode goes to the next entry, and stays on the last one;
/// moving up goes to the previous entry, and stays on the first one. The list moved in is
/// the search results, the categories or the warehouses, by screen.
pub proof fn law_moves_step_by_one(old: App, key: KeyPress, new: App, res: Option<Command>)
    requires
        key_ok(old, key, new, res),
        old.input_mode == InputMode::Normal,
        !(key.code matches KeyCode::Char(c) && '1' <= c && c <= '6'),
        old.item_selected < usize::MAX,
        old.category_selected < usize::MAX,
        old.warehouse_selected < usize::MAX,
    ensures
        ({
            let a = lookup(old.keymap.0@, KeyBinding { code: key.code, modifiers: key.modifiers });
            let n_items = old.filtered@.len();
            let n_cats = old.categories@.len();
            let n_whs = old.warehouses@.len();
            &&& old.screen is ItemList && a == Some(Action::MoveDown) ==> new.item_selected as int
                    == if old.item_selected + 1 < n_items { old.item_selected + 1 } else if n_items == 0 { 0 } else { n_items - 1 }
            &&& old.screen is ItemList && a == Some(Action::MoveUp) ==> new.item_selected as int
                    == if old.item_selected > 0 { old.item_selected - 1 } else { 0 }
            &&& old.screen is CategoryList && a == Some(Action::MoveDown) ==> new.category_selected as int
                    == if old.category_selected + 1 < n_cats { old.category_selected + 1 } else if n_cats == 0 { 0 } else { n_cats - 1 }
            &&& old.screen is CategoryList && a == Some(Action::MoveUp) ==> new.category_selected as int
                    == if old.category_selected > 0 { old.category_selected - 1 } else { 0 }
            &&& old.screen is WarehouseList && a == Some(Action::MoveDown) ==> new.warehouse_selected as int
                    == if old.warehouse_selected + 1 < n_whs { old.warehouse_selected + 1 } else if n_whs == 0 { 0 } else { n_whs - 1 }
            &&& old.screen is WarehouseList && a == Some(Action::MoveUp) ==> new.warehouse_selected as int
                    == if old.warehouse_selected > 0 { old.warehouse_selected - 1 } else { 0 }
        }),
{
}

/// Delete on a detail screen in normal mode asks to confirm deleting the entry shown, and
/// deletes nothing yet.
pub proof fn law_delete_asks_about_the_entry_shown(old: App, key: KeyPress, new: App, res: Option<Command>)
    requires
        key_ok(old, key, new, res),
        old.input_mode == InputMode::Normal,
        !(key.code matches KeyCode::Char(c) && '1' <= c && c <= '6'),
        lookup(old.keymap.0@, KeyBinding { code: key.code, modifiers: key.modifiers }) == Some(Action::Delete),
    ensures
        old.screen matches Screen::ItemDetail(id) ==> new.pending_delete == Some(PendingDelete::Item(id))
            && new.input_mode == InputMode::ConfirmingDelete && res is None,
        old.screen matches Screen::CategoryDetail(id) ==> new.pending_delete == Some(PendingDelete::Category(id))
            && new.input_mode == InputMode::ConfirmingDelete && res is None,
        old.screen matches Screen::WarehouseDetail(id) ==> new.pending_delete == Some(PendingDelete::Warehouse(id))
            && new.input_mode == InputMode::ConfirmingDelete && res is None,
        new.items == old.items && new.categories == old.categories && new.warehouses == old.warehouses,
{
}

/// Search results come best first: an earlier result never scores lower than a later
/// one, every result matches, every matching item is listed, and none twice.
pub proof fn law_search_results_best_first(items: Seq<crate::item::ItemWithStock>, q: Seq<char>, order: Seq<usize>)
    requires
        is_fuzzy_order(items, q, order),
    ensures
        forall|k: int, l: int| 0 <= k < l < order.len() ==>
            score_of(items, q, order[k] as int)->Some_0 >= score_of(items, q, order[l] as int)->Some_0,
        forall|k: int| 0 <= k < order.len() ==> (#[trigger] order[k]) < items.len() && score_of(items, q, order[k] as int) is Some,
        forall|i: int| 0 <= i < items.len() && (#[trigger] score_of(items, q, i)) is Some
            ==> exists|k: int| 0 <= k < order.len() && order[k] == i,
        forall|k: int, l: int| 0 <= k < l < order.len() ==> order[k] != order[l],
{
    assert forall|k: int, l: int| 0 <= k < l < order.len() implies
        score_of(items, q, order[k] as int)->Some_0 >= score_of(items, q, order[l] as int)->Some_0
        && order[k] != order[l] by {
        assert(crate::tui::filter::ranks_before(
            score_of(items, q, order[k] as int)->Some_0, order[k] as int,
            score_of(items, q, order[l] as int)->Some_0, order[l] as int));
    }
}

} // verus!
