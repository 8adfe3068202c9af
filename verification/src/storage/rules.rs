//! Decisions the repositories take around their database statements.
use vstd::prelude::*;
use crate::error::CoreError;
use crate::ids::{uuid_parse, CategoryId, ItemId, MovementId, WarehouseId};
use crate::stock::{
    law_apply_adds_delta, level_after, movement_delta, movement_from_parts, stored_reason, MovementView, StockLevel,
    StockMovement, StockMovementRecord,
};
use crate::storage::error::{DatabaseError, DbFailure, StorageError};
use crate::text::push_str;

verus! {

/// The error for a stored column that does not decode into the domain: the driver's
/// decoding error, whose text is `error occurred while decoding: ` and then `what`.
pub open spec fn is_decode_error(e: StorageError, what: Seq<char>) -> bool {
    e matches StorageError::Database(d)
        && d.failure is Other
        && d.text@ == "error occurred while decoding: "@ + what
}

fn decode_error(what: &str) -> (e: StorageError)
    ensures
        is_decode_error(e, what@),
{
    let mut text = String::new();
    push_str(&mut text, "error occurred while decoding: ");
    push_str(&mut text, what);
    StorageError::Database(DatabaseError { failure: DbFailure::Other, text })
}

/// The stored quantity as a `u32`; a value outside its range reads as zero.
pub open spec fn stored_quantity(q: i64) -> u32 {
    if 0 <= q <= u32::MAX { q as u32 } else { 0 }
}

/// Reads a `stock_levels` row (item id text, warehouse id text, quantity).
///
/// Fails with a decoding error for an item id, then for a warehouse id, that is not a UUID.
pub fn stock_level_from_row(item_id: String, warehouse_id: String, quantity: i64) -> (res: Result<StockLevel, StorageError>)
    ensures
        uuid_parse(item_id@) is None ==> is_decode_error(res->Err_0, "invalid item id"@) && res is Err,
        uuid_parse(item_id@) is Some && uuid_parse(warehouse_id@) is None ==>
            res is Err && is_decode_error(res->Err_0, "invalid warehouse id"@),
        uuid_parse(item_id@) is Some && uuid_parse(warehouse_id@) is Some ==>
            (res matches Ok(l) && Some(l.item_id.0) == uuid_parse(item_id@)
                && Some(l.warehouse_id.0) == uuid_parse(warehouse_id@)
                && l.quantity == stored_quantity(quantity)),
{
    let item = match ItemId::try_from(item_id) {
        Ok(id) => id,
        Err(_) => { return Err(decode_error("invalid item id")); },
    };
    let warehouse = match WarehouseId::try_from(warehouse_id) {
        Ok(id) => id,
        Err(_) => { return Err(decode_error("invalid warehouse id")); },
    };
    let q: u32 = if 0 <= quantity && quantity <= u32::MAX as i64 { quantity as u32 } else { 0 };
    Ok(StockLevel { item_id: item, warehouse_id: warehouse, quantity: q })
}

/// A `stock_movements` row as read from the database. `created_at` is in seconds
/// since the Unix epoch.
#[derive(Debug)]
pub struct MovementRow {
    pub id: String,
    pub item_id: String,
    pub warehouse_id: String,
    pub kind: String,
    pub qty_delta: i64,
    pub reason: Option<String>,
    pub created_at: i64,
}

/// The reason column as an optional text.
pub open spec fn reason_view(r: Option<String>) -> Option<Seq<char>> {
    match r {
        Some(s) => Some(s@),
        None => None,
    }
}

/// Reads a `stock_movements` row into a record.
///
/// The movement is rebuilt first (a `Core` error if that fails); then the movement id,
/// item id and warehouse id are read, each failing with a decoding error if not a UUID.
pub fn movement_record_from_row(row: MovementRow) -> (res: Result<StockMovementRecord, StorageError>)
    ensures
        ({
            let parts = movement_from_parts(row.kind@, row.qty_delta as int, stored_reason(reason_view(row.reason)));
            &&& parts is None ==> (res matches Err(StorageError::Core(_)))
            &&& parts is Some && uuid_parse(row.id@) is None ==>
                res is Err && is_decode_error(res->Err_0, "invalid movement id"@)
            &&& parts is Some && uuid_parse(row.id@) is Some && uuid_parse(row.item_id@) is None ==>
                res is Err && is_decode_error(res->Err_0, "invalid item id"@)
            &&& parts is Some && uuid_parse(row.id@) is Some && uuid_parse(row.item_id@) is Some
                && uuid_parse(row.warehouse_id@) is None ==>
                res is Err && is_decode_error(res->Err_0, "invalid warehouse id"@)
            &&& parts is Some && uuid_parse(row.id@) is Some && uuid_parse(row.item_id@) is Some
                && uuid_parse(row.warehouse_id@) is Some ==>
                (res matches Ok(r) && parts == Some(r.movement@)
                    && Some(r.id.0) == uuid_parse(row.id@)
                    && Some(r.item_id.0) == uuid_parse(row.item_id@)
                    && Some(r.warehouse_id.0) == uuid_parse(row.warehouse_id@)
                    && r.created_at == row.created_at)
        }),
{
    let movement = match StockMovement::from_parts(row.kind.as_str(), row.qty_delta, row.reason) {
        Ok(m) => m,
        Err(e) => { return Err(StorageError::Core(e)); },
    };
    let id = match MovementId::try_from(row.id) {
        Ok(id) => id,
        Err(_) => { return Err(decode_error("invalid movement id")); },
    };
    let item_id = match ItemId::try_from(row.item_id) {
        Ok(id) => id,
        Err(_) => { return Err(decode_error("invalid item id")); },
    };
    let warehouse_id = match WarehouseId::try_from(row.warehouse_id) {
        Ok(id) => id,
        Err(_) => { return Err(decode_error("invalid warehouse id")); },
    };
    Ok(StockMovementRecord { id, item_id, warehouse_id, movement, created_at: row.created_at })
}

/// The quantity currently held: that of the stored level, or zero where none is stored yet.
pub open spec fn current_quantity(current: Option<StockLevel>) -> u32 {
    match current {
        Some(l) => l.quantity,
        None => 0,
    }
}

/// What applying movement `m` stores, given the level currently stored: on success the
/// level the domain rule gives (for the stored level's item and warehouse, or the given
/// ones where none is stored); on failure the domain rule's error.
pub open spec fn stock_plan_ok(
    item_id: ItemId,
    warehouse_id: WarehouseId,
    current: Option<StockLevel>,
    m: MovementView,
    res: Result<StockLevel, StorageError>,
) -> bool {
    match res {
        Ok(l) => level_after(current_quantity(current), m) == Ok::<u32, CoreError>(l.quantity)
            && l.item_id == (match current { Some(c) => c.item_id, None => item_id })
            && l.warehouse_id == (match current { Some(c) => c.warehouse_id, None => warehouse_id }),
        Err(e) => e matches StorageError::Core(c) && level_after(current_quantity(current), m) == Err::<u32, CoreError>(c),
    }
}

/// The new stock level that applying a movement stores, given the level currently stored
/// for the item and warehouse (or `None` where there is none yet, which counts as zero).
///
/// The domain rule decides: a refused movement is a `Core` error and nothing is stored.
pub fn plan_stock_update(
    item_id: ItemId,
    warehouse_id: WarehouseId,
    current: Option<StockLevel>,
    movement: &StockMovement,
) -> (res: Result<StockLevel, StorageError>)
    ensures
        stock_plan_ok(item_id, warehouse_id, current, movement@, res),
{
    let level = match current {
        Some(l) => l,
        None => StockLevel { item_id, warehouse_id, quantity: 0 },
    };
    match level.apply(movement) {
        Ok(updated) => Ok(updated),
        Err(e) => Err(StorageError::Core(e)),
    }
}

/// Whether a category may be deleted: not while an item still refers to it.
pub fn check_category_deletable(id: CategoryId, in_use: bool) -> (res: Result<(), StorageError>)
    ensures
        in_use <==> res is Err,
        res matches Err(e) ==> e == StorageError::CategoryInUse(id),
{
    if in_use {
        Err(StorageError::CategoryInUse(id))
    } else {
        Ok(())
    }
}

/// An entry of the movement log: the item, the warehouse and the movement.
pub type LogEntry = (ItemId, WarehouseId, MovementView);

/// The sum of the signed deltas the log records for one item in one warehouse.
pub open spec fn logged_total(log: Seq<LogEntry>, item_id: ItemId, warehouse_id: WarehouseId) -> int
    decreases log.len(),
{
    if log.len() == 0 {
        0
    } else {
        let e = log.last();
        logged_total(log.drop_last(), item_id, warehouse_id)
            + if e.0 == item_id && e.1 == warehouse_id { movement_delta(e.2) } else { 0 }
    }
}

/// The quantity stored for an item in a warehouse: zero where no level is stored.
pub open spec fn level_held(levels: Map<(ItemId, WarehouseId), u32>, item_id: ItemId, warehouse_id: WarehouseId) -> int {
    if levels.contains_key((item_id, warehouse_id)) { levels[(item_id, warehouse_id)] as int } else { 0 }
}

/// Every stored level equals the sum of the log's deltas for its item and warehouse.
pub open spec fn levels_match_log(levels: Map<(ItemId, WarehouseId), u32>, log: Seq<LogEntry>) -> bool {
    forall|i: ItemId, w: WarehouseId| #[trigger] level_held(levels, i, w) == logged_total(log, i, w)
}

/// The level and the log never drift apart. Where every stored level equals the sum of
/// its logged deltas, applying a movement keeps it so: a refused movement stores and
/// logs nothing; an accepted one stores the planned level (the stored quantity plus the
/// movement's delta) and logs the movement, for that item and warehouse alone.
pub proof fn law_stock_update_keeps_level_and_log_in_step(
    levels: Map<(ItemId, WarehouseId), u32>,
    log: Seq<LogEntry>,
    item_id: ItemId,
    warehouse_id: WarehouseId,
    current: Option<StockLevel>,
    m: MovementView,
    res: Result<StockLevel, StorageError>,
)
    requires
        levels_match_log(levels, log),
        current_quantity(current) == level_held(levels, item_id, warehouse_id),
        stock_plan_ok(item_id, warehouse_id, current, m, res),
    ensures
        res is Err ==> levels_match_log(levels, log),
        res matches Ok(l) ==> l.quantity == level_held(levels, item_id, warehouse_id) + movement_delta(m)
            && levels_match_log(levels.insert((item_id, warehouse_id), l.quantity), log.push((item_id, warehouse_id, m))),
{
    if let Ok(l) = res {
        law_apply_adds_delta(current_quantity(current), m);
        let levels2 = levels.insert((item_id, warehouse_id), l.quantity);
        let log2 = log.push((item_id, warehouse_id, m));
        assert forall|i: ItemId, w: WarehouseId| #[trigger] level_held(levels2, i, w) == logged_total(log2, i, w) by {
            assert(log2.drop_last() =~= log);
            assert(level_held(levels, i, w) == logged_total(log, i, w));
        }
    }
}

} // verus!
