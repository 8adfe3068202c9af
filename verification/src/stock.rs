//! Stock movements and the stock level of an item in one warehouse.
use vstd::prelude::*;
use crate::error::CoreError;
use crate::ids::{ItemId, MovementId, WarehouseId};
use crate::text::str_eq;

verus! {

/// A stock movement as a mathematical value.
pub enum MovementView {
    Inbound { qty: u32, reason: Seq<char> },
    Outbound { qty: u32, reason: Seq<char> },
    Adjustment { delta: i32, reason: Seq<char> },
}

/// A change to the stock of one item in one warehouse.
#[derive(Debug, Clone)]
pub enum StockMovement {
    Inbound { qty: u32, reason: String },
    Outbound { qty: u32, reason: String },
    Adjustment { delta: i32, reason: String },
}

impl View for StockMovement {
    type V = MovementView;

    open spec fn view(&self) -> MovementView {
        match self {
            StockMovement::Inbound { qty, reason } => MovementView::Inbound { qty: *qty, reason: reason@ },
            StockMovement::Outbound { qty, reason } => MovementView::Outbound { qty: *qty, reason: reason@ },
            StockMovement::Adjustment { delta, reason } => MovementView::Adjustment { delta: *delta, reason: reason@ },
        }
    }
}

/// The tag stored in the `kind` column.
pub open spec fn kind_text(m: MovementView) -> Seq<char> {
    match m {
        MovementView::Inbound { .. } => "inbound"@,
        MovementView::Outbound { .. } => "outbound"@,
        MovementView::Adjustment { .. } => "adjustment"@,
    }
}

/// The signed change in quantity: inbound adds, outbound removes, an adjustment keeps its sign.
pub open spec fn movement_delta(m: MovementView) -> int {
    match m {
        MovementView::Inbound { qty, .. } => qty as int,
        MovementView::Outbound { qty, .. } => -(qty as int),
        MovementView::Adjustment { delta, .. } => delta as int,
    }
}

/// The free-text reason of a movement.
pub open spec fn movement_reason(m: MovementView) -> Seq<char> {
    match m {
        MovementView::Inbound { reason, .. } => reason,
        MovementView::Outbound { reason, .. } => reason,
        MovementView::Adjustment { reason, .. } => reason,
    }
}

/// The reason read from storage: an absent reason is the empty text.
pub open spec fn stored_reason(reason: Option<Seq<char>>) -> Seq<char> {
    match reason {
        Some(r) => r,
        None => Seq::empty(),
    }
}

/// The movement rebuilt from its stored columns, or `None` where the kind is unknown
/// or the delta does not fit the kind.
pub open spec fn movement_from_parts(kind: Seq<char>, delta: int, reason: Seq<char>) -> Option<MovementView> {
    if kind == "inbound"@ {
        if 0 <= delta <= u32::MAX { Some(MovementView::Inbound { qty: delta as u32, reason }) } else { None }
    } else if kind == "outbound"@ {
        if 0 <= -delta <= u32::MAX { Some(MovementView::Outbound { qty: (-delta) as u32, reason }) } else { None }
    } else if kind == "adjustment"@ {
        if i32::MIN <= delta <= i32::MAX { Some(MovementView::Adjustment { delta: delta as i32, reason }) } else { None }
    } else {
        None
    }
}

/// Whether `kind` is one of the three stored tags.
pub open spec fn is_known_kind(kind: Seq<char>) -> bool {
    kind == "inbound"@ || kind == "outbound"@ || kind == "adjustment"@
}

fn option_text(reason: Option<String>) -> (res: String)
    ensures
        res@ == stored_reason(match reason { Some(r) => Some(r@), None => None }),
{
    match reason {
        Some(r) => r,
        None => String::new(),
    }
}

impl StockMovement {
    /// The tag for the `kind` column.
    pub fn kind_str(&self) -> (res: &'static str)
        ensures
            res@ == kind_text(self@),
    {
        match self {
            StockMovement::Inbound { .. } => "inbound",
            StockMovement::Outbound { .. } => "outbound",
            StockMovement::Adjustment { .. } => "adjustment",
        }
    }

    /// The signed delta for the `quantity_delta` column.
    pub fn quantity_delta(&self) -> (res: i64)
        ensures
            res == movement_delta(self@),
    {
        match self {
            StockMovement::Inbound { qty, .. } => *qty as i64,
            StockMovement::Outbound { qty, .. } => -(*qty as i64),
            StockMovement::Adjustment { delta, .. } => *delta as i64,
        }
    }

    /// The free-text reason.
    pub fn reason(&self) -> (res: &str)
        ensures
            res@ == movement_reason(self@),
    {
        match self {
            StockMovement::Inbound { reason, .. } => reason.as_str(),
            StockMovement::Outbound { reason, .. } => reason.as_str(),
            StockMovement::Adjustment { reason, .. } => reason.as_str(),
        }
    }

    /// Rebuilds a movement from the stored (`kind`, `qty_delta`, `reason`) columns.
    ///
    /// Fails with `InvalidMovementKind` (carrying the kind) for an unknown kind, and with
    /// `QuantityOverflow` where the delta does not fit the kind's sign and width.
    pub fn from_parts(kind: &str, qty_delta: i64, reason: Option<String>) -> (res: Result<Self, CoreError>)
        ensures
            ({
                let r = match reason { Some(r) => Some(r@), None => None };
                match res {
                    Ok(m) => movement_from_parts(kind@, qty_delta as int, stored_reason(r)) == Some(m@),
                    Err(e) => movement_from_parts(kind@, qty_delta as int, stored_reason(r)) is None
                        && (if is_known_kind(kind@) {
                            e == CoreError::QuantityOverflow
                        } else {
                            e matches CoreError::InvalidMovementKind(k) && k@ == kind@
                        }),
                }
            }),
    {
        let reason = option_text(reason);
        if str_eq(kind, "inbound") {
            if 0 <= qty_delta && qty_delta <= u32::MAX as i64 {
                Ok(StockMovement::Inbound { qty: qty_delta as u32, reason })
            } else {
                Err(CoreError::QuantityOverflow)
            }
        } else if str_eq(kind, "outbound") {
            if qty_delta <= 0 && qty_delta >= -(u32::MAX as i64) {
                Ok(StockMovement::Outbound { qty: (-qty_delta) as u32, reason })
            } else {
                Err(CoreError::QuantityOverflow)
            }
        } else if str_eq(kind, "adjustment") {
            if i32::MIN as i64 <= qty_delta && qty_delta <= i32::MAX as i64 {
                Ok(StockMovement::Adjustment { delta: qty_delta as i32, reason })
            } else {
                Err(CoreError::QuantityOverflow)
            }
        } else {
            Err(CoreError::InvalidMovementKind(kind.to_owned()))
        }
    }
}

/// A movement as it was recorded. `created_at` is in seconds since the Unix epoch.
#[derive(Debug, Clone)]
pub struct StockMovementRecord {
    pub id: MovementId,
    pub item_id: ItemId,
    pub warehouse_id: WarehouseId,
    pub movement: StockMovement,
    pub created_at: i64,
}

/// The quantity of one item held in one warehouse.
#[derive(Debug, Clone)]
pub struct StockLevel {
    pub item_id: ItemId,
    pub warehouse_id: WarehouseId,
    pub quantity: u32,
}

/// The quantity after a movement, or the error that refuses it.
pub open spec fn level_after(quantity: u32, m: MovementView) -> Result<u32, CoreError> {
    match m {
        MovementView::Inbound { qty, .. } =>
            if quantity + qty <= u32::MAX { Ok((quantity + qty) as u32) } else { Err(CoreError::QuantityOverflow) },
        MovementView::Outbound { qty, .. } =>
            if qty <= quantity {
                Ok((quantity - qty) as u32)
            } else {
                Err(CoreError::InsufficientStock { requested: qty, available: quantity })
            },
        MovementView::Adjustment { delta, .. } =>
            if 0 <= quantity + delta <= u32::MAX {
                Ok((quantity + delta) as u32)
            } else {
                Err(CoreError::InsufficientStock {
                    requested: if delta < 0 { (-delta) as u32 } else { delta as u32 },
                    available: quantity,
                })
            },
    }
}

impl StockLevel {
    /// The quantity is under the given threshold.
    pub fn is_below_threshold(&self, threshold: u32) -> (res: bool)
        ensures
            res == (self.quantity < threshold),
    {
        self.quantity < threshold
    }

    /// Applies a movement and gives the new stock level for the same item and warehouse.
    ///
    /// Inbound fails with `QuantityOverflow` past `u32::MAX`; outbound fails with
    /// `InsufficientStock` when it asks for more than is held; an adjustment fails with
    /// `InsufficientStock` when the result would be negative or past `u32::MAX`.
    pub fn apply(&self, movement: &StockMovement) -> (res: Result<Self, CoreError>)
        ensures
            match res {
                Ok(l) => level_after(self.quantity, movement@) == Ok::<u32, CoreError>(l.quantity)
                    && l.item_id == self.item_id && l.warehouse_id == self.warehouse_id,
                Err(e) => level_after(self.quantity, movement@) == Err::<u32, CoreError>(e),
            },
    {
        let new_qty: u32 = match movement {
            StockMovement::Inbound { qty, .. } => {
                match self.quantity.checked_add(*qty) {
                    Some(q) => q,
                    None => { return Err(CoreError::QuantityOverflow); },
                }
            },
            StockMovement::Outbound { qty, .. } => {
                match self.quantity.checked_sub(*qty) {
                    Some(q) => q,
                    None => {
                        return Err(CoreError::InsufficientStock { available: self.quantity, requested: *qty });
                    },
                }
            },
            StockMovement::Adjustment { delta, .. } => {
                let signed_qty: i64 = self.quantity as i64 + *delta as i64;
                let requested: u32 = if *delta < 0 { (-(*delta as i64)) as u32 } else { *delta as u32 };
                if signed_qty < 0 || signed_qty > u32::MAX as i64 {
                    return Err(CoreError::InsufficientStock { available: self.quantity, requested });
                }
                signed_qty as u32
            },
        };
        Ok(StockLevel { item_id: self.item_id, warehouse_id: self.warehouse_id, quantity: new_qty })
    }
}

/// The quantity after applying `ms` in order, or `None` as soon as one is refused.
pub open spec fn apply_all(quantity: u32, ms: Seq<MovementView>) -> Option<u32>
    decreases ms.len(),
{
    if ms.len() == 0 {
        Some(quantity)
    } else {
        match level_after(quantity, ms[0]) {
            Ok(q) => apply_all(q, ms.drop_first()),
            Err(_) => None,
        }
    }
}

/// The sum of the signed deltas of `ms`.
pub open spec fn sum_deltas(ms: Seq<MovementView>) -> int
    decreases ms.len(),
{
    if ms.len() == 0 {
        0
    } else {
        movement_delta(ms[0]) + sum_deltas(ms.drop_first())
    }
}

/// A movement is accepted exactly when the quantity plus its signed delta stays within
/// `0..=u32::MAX`, and then the new quantity is that sum.
pub proof fn law_apply_adds_delta(quantity: u32, m: MovementView)
    ensures
        level_after(quantity, m) is Ok <==> 0 <= quantity + movement_delta(m) <= u32::MAX,
        level_after(quantity, m) matches Ok(q) ==> q == quantity + movement_delta(m),
{
}

/// An outbound movement never raises the quantity, and the only error it gives is
/// `InsufficientStock`.
pub proof fn law_outbound_never_increases(quantity: u32, qty: u32, reason: Seq<char>)
    ensures
        level_after(quantity, MovementView::Outbound { qty, reason }) matches Ok(q) ==> q <= quantity,
        level_after(quantity, MovementView::Outbound { qty, reason }) matches Err(e) ==> e is InsufficientStock,
{
}

/// Taking out what was just put in restores the quantity.
pub proof fn law_inbound_then_outbound_restores(quantity: u32, qty: u32, r1: Seq<char>, r2: Seq<char>)
    requires
        level_after(quantity, MovementView::Inbound { qty, reason: r1 }) is Ok,
    ensures
        ({
            let q1 = level_after(quantity, MovementView::Inbound { qty, reason: r1 })->Ok_0;
            level_after(q1, MovementView::Outbound { qty, reason: r2 }) == Ok::<u32, CoreError>(quantity)
        }),
{
}

/// An adjustment followed by the opposite adjustment restores the quantity.
pub proof fn law_adjustment_undone(quantity: u32, delta: i32, r1: Seq<char>, r2: Seq<char>)
    requires
        delta != i32::MIN,
        level_after(quantity, MovementView::Adjustment { delta, reason: r1 }) is Ok,
    ensures
        ({
            let q1 = level_after(quantity, MovementView::Adjustment { delta, reason: r1 })->Ok_0;
            level_after(q1, MovementView::Adjustment { delta: (-delta) as i32, reason: r2 })
                == Ok::<u32, CoreError>(quantity)
        }),
{
}

/// When a whole sequence of movements is accepted, the final quantity is the starting
/// quantity plus the sum of their deltas: the level never drifts from the log.
pub proof fn law_level_is_sum_of_log(quantity: u32, ms: Seq<MovementView>)
    ensures
        apply_all(quantity, ms) matches Some(q) ==> q == quantity + sum_deltas(ms),
    decreases ms.len(),
{
    if ms.len() > 0 {
        match level_after(quantity, ms[0]) {
            Ok(q) => {
                law_apply_adds_delta(quantity, ms[0]);
                law_level_is_sum_of_log(q, ms.drop_first());
            },
            Err(_) => {},
        }
    }
}

/// The stored columns of a movement (kind tag, signed delta, reason) rebuild it exactly.
pub proof fn law_movement_parts_round_trip(m: MovementView)
    ensures
        movement_from_parts(kind_text(m), movement_delta(m), movement_reason(m)) == Some(m),
{
    reveal_strlit("inbound");
    reveal_strlit("outbound");
    reveal_strlit("adjustment");
    assert("inbound"@ != "outbound"@) by { assert("inbound"@[0] != "outbound"@[0]); }
    assert("inbound"@ != "adjustment"@) by { assert("inbound"@[0] != "adjustment"@[0]); }
    assert("outbound"@ != "adjustment"@) by { assert("outbound"@[0] != "adjustment"@[0]); }
    match m {
        MovementView::Outbound { qty, reason } => {
            assert(-(-(qty as int)) == qty as int);
        },
        _ => {},
    }
}

} // verus!
