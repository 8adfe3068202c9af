//! Bulk import of items from CSV rows, through the same validation as manual entry.
//!
//! Reading the file and talking to the repositories happen outside; what to do with
//! each row is decided here.
use vstd::prelude::*;
use crate::category::{name_length_ok, Category, CategoryName};
use crate::error::{validation_error_message, ValidationError};
use crate::ids::{CategoryId, ItemId};
use crate::money::Money;
use crate::sku::{all_sku_chars, sku_accepts, sku_normal, Sku};
use crate::storage::inputs::CreateItemInput;
use crate::text::{eq_ignore_ascii_case, push_str, str_eq_ignore_ascii_case, utf8_len};
use crate::tui::lists::{index_where, lemma_index_where};

verus! {

/// One CSV row as read: the columns `sku`, `name`, `description`, `category`,
/// `unit_cost_kobo` and `reorder_threshold`.
#[derive(Debug)]
pub struct ImportRow {
    pub sku: String,
    pub name: String,
    pub description: Option<String>,
    pub category: String,
    pub unit_cost_kobo: i64,
    pub reorder_threshold: u32,
}

/// The outcome of an import: how many items were created, and which rows were skipped
/// (row number in the file, reason).
#[derive(Debug)]
pub struct ImportSummary {
    pub imported: usize,
    pub skipped: Vec<(usize, String)>,
}

/// How a row ended: its item was created, or the row was skipped for a reason.
#[derive(Debug)]
pub enum RowOutcome {
    Imported,
    Skipped(String),
}

/// The number of rows a summary accounts for: those imported and those skipped.
pub open spec fn rows_counted(s: ImportSummary) -> nat {
    s.imported as nat + s.skipped@.len()
}

/// An item whose row is valid, waiting for its (new) category to exist.
#[derive(Debug)]
pub struct PendingItem {
    pub sku: Sku,
    pub name: String,
    pub description: Option<String>,
    pub unit_cost: Money,
    pub reorder_threshold: u32,
}

/// What to do with a row.
#[derive(Debug)]
pub enum RowPlan {
    /// Skip the row, for this reason.
    Skip(String),
    /// Create this item; its category exists.
    Item(CreateItemInput),
    /// Create this category first, then the item.
    NewCategory(CategoryName, PendingItem),
}

/// The sentence for a rejected SKU, as `ValidationError::message` gives it.
pub open spec fn sku_error_message(raw: Seq<char>) -> Seq<char> {
    if all_sku_chars(raw) {
        validation_error_message(ValidationError::InvalidSkuLength(utf8_len(raw) as usize))
    } else {
        "SKU can only contain letters, numbers, and hyphens."@
    }
}

/// The category has the given name, ignoring ASCII case.
pub open spec fn is_named(name: Seq<char>) -> spec_fn(Category) -> bool {
    |c: Category| eq_ignore_ascii_case(c.name.0@, name)
}

/// The row number in the file of the `idx`-th record: one for the header, one because
/// rows count from one.
pub fn row_number(idx: usize) -> (n: usize)
    requires
        idx + 2 <= usize::MAX,
    ensures
        n == idx + 2,
{
    idx + 2
}

/// The reason recorded for a row the CSV reader could not read.
pub fn unreadable_row_reason(err: &str) -> (res: String)
    ensures
        res@ == "couldn't parse row: "@ + err@,
{
    let mut out = String::new();
    push_str(&mut out, "couldn't parse row: ");
    push_str(&mut out, err);
    out
}

/// The index of the first category named `name`, ignoring ASCII case.
pub fn find_category_named(categories: &Vec<Category>, name: &str) -> (res: Option<usize>)
    ensures
        match res {
            Some(i) => index_where(categories@, is_named(name@)) == Some(i as int),
            None => index_where(categories@, is_named(name@)) is None,
        },
{
    let n = categories.len();
    let mut i: usize = 0;
    while i < n
        invariant
            n == categories@.len(),
            i <= n,
            forall|j: int| 0 <= j < i ==> !is_named(name@)(#[trigger] categories@[j]),
        decreases n - i,
    {
        if str_eq_ignore_ascii_case(categories[i].name.0.as_str(), name) {
            proof { lemma_index_where(categories@, is_named(name@), i as int); }
            return Some(i);
        }
        i = i + 1;
    }
    proof { lemma_index_where(categories@, is_named(name@), i as int); }
    None
}

/// Decides what to do with a row, given the categories known so far.
///
/// A bad SKU skips the row with `ValidationError::message`. A category is found by name
/// ignoring ASCII case; an unknown one is to be created, unless its name is invalid,
/// which skips the row.
pub fn plan_row(row: ImportRow, categories: &Vec<Category>) -> (plan: RowPlan)
    ensures
        !sku_accepts(row.sku@) ==> (plan matches RowPlan::Skip(r) && r@ == sku_error_message(row.sku@)),
        sku_accepts(row.sku@) ==> match index_where(categories@, is_named(row.category@)) {
            Some(i) => plan matches RowPlan::Item(input)
                && input.sku.0@ == sku_normal(row.sku@)
                && input.name == row.name
                && input.description == row.description
                && input.category_id == categories@[i].id
                && input.unit_cost == Money(row.unit_cost_kobo)
                && input.reorder_threshold == row.reorder_threshold,
            None => if name_length_ok(row.category@) {
                plan matches RowPlan::NewCategory(name, p)
                    && name.0@ == row.category@
                    && p.sku.0@ == sku_normal(row.sku@)
                    && p.name == row.name
                    && p.description == row.description
                    && p.unit_cost == Money(row.unit_cost_kobo)
                    && p.reorder_threshold == row.reorder_threshold
            } else {
                plan matches RowPlan::Skip(r) && r@ == validation_error_message(
                    ValidationError::InvalidCategoryNameLength(row.category@.len() as usize))
            },
        },
{
    let sku = match Sku::parse(row.sku.as_str()) {
        Ok(s) => s,
        Err(e) => { return RowPlan::Skip(e.message()); },
    };
    match find_category_named(categories, row.category.as_str()) {
        Some(i) => {
            proof { crate::tui::lists::lemma_index_where_spec(categories@, is_named(row.category@)); }
            RowPlan::Item(CreateItemInput {
                id: ItemId::new(),
                sku,
                name: row.name,
                description: row.description,
                category_id: categories[i].id,
                unit_cost: Money(row.unit_cost_kobo),
                reorder_threshold: row.reorder_threshold,
            })
        },
        None => match CategoryName::parse(row.category.as_str()) {
            Ok(name) => RowPlan::NewCategory(name, PendingItem {
                sku,
                name: row.name,
                description: row.description,
                unit_cost: Money(row.unit_cost_kobo),
                reorder_threshold: row.reorder_threshold,
            }),
            Err(e) => RowPlan::Skip(e.message()),
        },
    }
}

/// The item of a pending row, filed under the category that was just created for it.
pub fn pending_item_input(p: PendingItem, category_id: CategoryId) -> (input: CreateItemInput)
    ensures
        input.sku == p.sku,
        input.name == p.name,
        input.description == p.description,
        input.category_id == category_id,
        input.unit_cost == p.unit_cost,
        input.reorder_threshold == p.reorder_threshold,
{
    CreateItemInput {
        id: ItemId::new(),
        sku: p.sku,
        name: p.name,
        description: p.description,
        category_id,
        unit_cost: p.unit_cost,
        reorder_threshold: p.reorder_threshold,
    }
}

impl ImportSummary {
    /// Nothing imported, nothing skipped.
    pub fn new() -> (s: Self)
        ensures
            s.imported == 0,
            s.skipped@.len() == 0,
    {
        ImportSummary { imported: 0, skipped: Vec::new() }
    }

    /// Records one more imported item.
    pub fn record_imported(&mut self)
        requires
            old(self).imported < usize::MAX,
        ensures
            final(self).imported == old(self).imported + 1,
            final(self).skipped == old(self).skipped,
    {
        self.imported = self.imported + 1;
    }

    /// Records how the row numbered `row` ended. Every row read is recorded this way,
    /// whatever happened to it, so the summary counts each row exactly once: the rows
    /// imported plus the rows skipped is the number of rows read.
    pub fn record_row(&mut self, row: usize, outcome: RowOutcome)
        requires
            outcome is Imported ==> old(self).imported < usize::MAX,
        ensures
            rows_counted(*final(self)) == rows_counted(*old(self)) + 1,
            match outcome {
                RowOutcome::Imported => final(self).imported == old(self).imported + 1
                    && final(self).skipped == old(self).skipped,
                RowOutcome::Skipped(reason) => final(self).imported == old(self).imported
                    && final(self).skipped@ == old(self).skipped@.push((row, reason)),
            },
    {
        match outcome {
            RowOutcome::Imported => self.record_imported(),
            RowOutcome::Skipped(reason) => self.record_skipped(row, reason),
        }
    }

    /// Records a skipped row and why.
    pub fn record_skipped(&mut self, row: usize, reason: String)
        ensures
            final(self).imported == old(self).imported,
            final(self).skipped@ == old(self).skipped@.push((row, reason)),
    {
        self.skipped.push((row, reason));
    }
}

} // verus!
