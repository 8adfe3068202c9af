//! The SQL text and bound arguments of the repositories' dynamic statements.
use vstd::prelude::*;
use crate::ids::uuid_hyphenated;
use crate::item::ItemFilter;
use crate::storage::inputs::{UpdateCategoryInput, UpdateItemInput, UpdateWarehouseInput};
use crate::text::{has_substring, push_str, to_lowercase, trim, trimmed, unicode_lowercase};

verus! {

/// A value bound to a `?` placeholder.
#[derive(Debug)]
pub enum SqlArg {
    Text(String),
    Int(i64),
}

/// A bound value as a mathematical value.
pub enum ArgView {
    Text(Seq<char>),
    Int(i64),
}

impl View for SqlArg {
    type V = ArgView;

    open spec fn view(&self) -> ArgView {
        match self {
            SqlArg::Text(s) => ArgView::Text(s@),
            SqlArg::Int(i) => ArgView::Int(*i),
        }
    }
}

/// A statement: its SQL text, and the values for its placeholders in order.
#[derive(Debug)]
pub struct SqlQuery {
    pub sql: String,
    pub args: Vec<SqlArg>,
}

/// The bound values of a statement as mathematical values.
pub open spec fn args_view(args: Seq<SqlArg>) -> Seq<ArgView> {
    args.map_values(|a: SqlArg| a@)
}

/// `s` where `present`, else nothing.
pub open spec fn when(present: bool, s: Seq<char>) -> Seq<char> {
    if present { s } else { Seq::empty() }
}

/// `s` as a one-element sequence where `present`, else nothing.
pub open spec fn arg_when(present: bool, a: ArgView) -> Seq<ArgView> {
    if present { seq![a] } else { Seq::empty() }
}

/// The `LIKE` pattern for a search text: the trimmed, lower-cased text between `%` signs.
pub open spec fn search_pattern(text: Seq<char>) -> Seq<char> {
    "%"@ + unicode_lowercase(trimmed(text)) + "%"@
}

/// The SQL text of an item listing under `f`.
pub open spec fn item_list_sql(f: ItemFilter) -> Seq<char> {
    "SELECT items.*, COALESCE(SUM(stock_levels.quantity), 0) AS total_quantity FROM items LEFT JOIN stock_levels ON stock_levels.item_id = items.id WHERE 1 = 1"@
        + when(f.category_id is Some, " AND items.category_id = ?"@)
        + when(f.below_threshold_only, " AND stock_levels.quantity < items.reorder_threshold"@)
        + when(f.search_text is Some, " AND (LOWER(items.name) LIKE ? OR LOWER(COALESCE(items.description, '')) LIKE ?)"@)
        + " GROUP BY items.id LIMIT ? OFFSET ?"@
}

/// The bound values of an item listing under `f`.
pub open spec fn item_list_args(f: ItemFilter) -> Seq<ArgView> {
    arg_when(f.category_id is Some, ArgView::Text(uuid_hyphenated(f.category_id.unwrap().0)))
        + (if f.search_text is Some {
            let p = search_pattern(f.search_text->0@);
            seq![ArgView::Text(p), ArgView::Text(p)]
        } else {
            Seq::empty()
        })
        + seq![ArgView::Int(f.limit as i64), ArgView::Int(f.offset as i64)]
}

/// The statement that lists items under a filter, each with its total stock
/// (`total_quantity`) over all warehouses.
pub fn item_list_query(filter: &ItemFilter) -> (q: SqlQuery)
    ensures
        q.sql@ == item_list_sql(*filter),
        args_view(q.args@) == item_list_args(*filter),
{
    let mut sql = String::new();
    let mut args: Vec<SqlArg> = Vec::new();
    push_str(&mut sql, "SELECT items.*, COALESCE(SUM(stock_levels.quantity), 0) AS total_quantity FROM items LEFT JOIN stock_levels ON stock_levels.item_id = items.id WHERE 1 = 1");
    let ghost s0 = sql@;
    if let Some(category_id) = &filter.category_id {
        push_str(&mut sql, " AND items.category_id = ?");
        args.push(SqlArg::Text(category_id.to_string()));
    }
    let ghost s1 = sql@;
    let ghost a1 = args@;
    if filter.below_threshold_only {
        push_str(&mut sql, " AND stock_levels.quantity < items.reorder_threshold");
    }
    let ghost s2 = sql@;
    if let Some(text) = &filter.search_text {
        let lowered = to_lowercase(trim(text.as_str()));
        let mut pattern = String::new();
        push_str(&mut pattern, "%");
        push_str(&mut pattern, lowered.as_str());
        push_str(&mut pattern, "%");
        let mut pattern2 = String::new();
        push_str(&mut pattern2, pattern.as_str());
        push_str(&mut sql, " AND (LOWER(items.name) LIKE ? OR LOWER(COALESCE(items.description, '')) LIKE ?)");
        args.push(SqlArg::Text(pattern));
        args.push(SqlArg::Text(pattern2));
    }
    let ghost s3 = sql@;
    let ghost a3 = args@;
    push_str(&mut sql, " GROUP BY items.id LIMIT ? OFFSET ?");
    args.push(SqlArg::Int(filter.limit as i64));
    args.push(SqlArg::Int(filter.offset as i64));
    proof {
        assert(s1 == s0 + when(filter.category_id is Some, " AND items.category_id = ?"@));
        assert(sql@ =~= item_list_sql(*filter));
        assert(args_view(a1) =~= arg_when(filter.category_id is Some, ArgView::Text(uuid_hyphenated(filter.category_id.unwrap().0))));
        assert(args_view(args@) =~= item_list_args(*filter));
    }
    SqlQuery { sql, args }
}

/// The SQL text of a category update: the given fields, separated by commas.
pub open spec fn category_update_sql(u: UpdateCategoryInput) -> Seq<char> {
    "UPDATE categories SET "@
        + when(u.name is Some, " name = ?"@)
        + when(u.description is Some, when(u.name is Some, ","@) + " description = ?"@)
        + " WHERE id = ? RETURNING *"@
}

/// The bound values of a category update.
pub open spec fn category_update_args(u: UpdateCategoryInput) -> Seq<ArgView> {
    arg_when(u.name is Some, ArgView::Text(u.name.unwrap().0@))
        + arg_when(u.description is Some, ArgView::Text(u.description->0@))
        + seq![ArgView::Text(uuid_hyphenated(u.id.0))]
}

/// The statement that updates a category's given fields and returns the updated row.
pub fn category_update_query(input: &UpdateCategoryInput) -> (q: SqlQuery)
    ensures
        q.sql@ == category_update_sql(*input),
        args_view(q.args@) == category_update_args(*input),
{
    let mut sql = String::new();
    let mut args: Vec<SqlArg> = Vec::new();
    push_str(&mut sql, "UPDATE categories SET ");
    if let Some(name) = &input.name {
        push_str(&mut sql, " name = ?");
        args.push(SqlArg::Text(name.0.as_str().to_owned()));
    }
    let ghost a1 = args@;
    if let Some(description) = &input.description {
        if input.name.is_some() {
            push_str(&mut sql, ",");
        }
        push_str(&mut sql, " description = ?");
        args.push(SqlArg::Text(description.as_str().to_owned()));
    }
    let ghost a2 = args@;
    push_str(&mut sql, " WHERE id = ? RETURNING *");
    args.push(SqlArg::Text(input.id.to_string()));
    proof {
        assert(sql@ =~= category_update_sql(*input));
        assert(args_view(a1) =~= arg_when(input.name is Some, ArgView::Text(input.name.unwrap().0@)));
        assert(args_view(a2) =~= args_view(a1) + arg_when(input.description is Some, ArgView::Text(input.description->0@)));
        assert(args_view(args@) =~= category_update_args(*input));
    }
    SqlQuery { sql, args }
}

/// The SQL text of a warehouse update: the given fields, separated by commas.
pub open spec fn warehouse_update_sql(u: UpdateWarehouseInput) -> Seq<char> {
    "UPDATE warehouses SET "@
        + when(u.name is Some, " name = ?"@)
        + when(u.location is Some, when(u.name is Some, ","@) + " location = ?"@)
        + " WHERE id = ? RETURNING *"@
}

/// The bound values of a warehouse update.
pub open spec fn warehouse_update_args(u: UpdateWarehouseInput) -> Seq<ArgView> {
    arg_when(u.name is Some, ArgView::Text(u.name.unwrap().0@))
        + arg_when(u.location is Some, ArgView::Text(u.location->0@))
        + seq![ArgView::Text(uuid_hyphenated(u.id.0))]
}

/// The statement that updates a warehouse's given fields and returns the updated row.
pub fn warehouse_update_query(input: &UpdateWarehouseInput) -> (q: SqlQuery)
    ensures
        q.sql@ == warehouse_update_sql(*input),
        args_view(q.args@) == warehouse_update_args(*input),
{
    let mut sql = String::new();
    let mut args: Vec<SqlArg> = Vec::new();
    push_str(&mut sql, "UPDATE warehouses SET ");
    if let Some(name) = &input.name {
        push_str(&mut sql, " name = ?");
        args.push(SqlArg::Text(name.0.as_str().to_owned()));
    }
    let ghost a1 = args@;
    if let Some(location) = &input.location {
        if input.name.is_some() {
            push_str(&mut sql, ",");
        }
        push_str(&mut sql, " location = ?");
        args.push(SqlArg::Text(location.as_str().to_owned()));
    }
    let ghost a2 = args@;
    push_str(&mut sql, " WHERE id = ? RETURNING *");
    args.push(SqlArg::Text(input.id.to_string()));
    proof {
        assert(sql@ =~= warehouse_update_sql(*input));
        assert(args_view(a1) =~= arg_when(input.name is Some, ArgView::Text(input.name.unwrap().0@)));
        assert(args_view(a2) =~= args_view(a1) + arg_when(input.location is Some, ArgView::Text(input.location->0@)));
        assert(args_view(args@) =~= warehouse_update_args(*input));
    }
    SqlQuery { sql, args }
}

/// The SQL text of an item update: it always stamps `updated_at`.
pub open spec fn item_update_sql(u: UpdateItemInput) -> Seq<char> {
    "UPDATE items SET updated_at = CURRENT_TIMESTAMP"@
        + when(u.name is Some, ", name = ?"@)
        + when(u.description is Some, ", description = ?"@)
        + when(u.category_id is Some, ", category_id = ?"@)
        + when(u.unit_cost is Some, ", unit_cost = ?"@)
        + when(u.reorder_threshold is Some, ", reorder_threshold = ?"@)
        + " WHERE id = ? RETURNING *"@
}

/// The bound values of an item update.
pub open spec fn item_update_args(u: UpdateItemInput) -> Seq<ArgView> {
    arg_when(u.name is Some, ArgView::Text(u.name->0@))
        + arg_when(u.description is Some, ArgView::Text(u.description->0@))
        + arg_when(u.category_id is Some, ArgView::Text(uuid_hyphenated(u.category_id.unwrap().0)))
        + arg_when(u.unit_cost is Some, ArgView::Int(u.unit_cost.unwrap().0))
        + arg_when(u.reorder_threshold is Some, ArgView::Int(u.reorder_threshold->0 as i64))
        + seq![ArgView::Text(uuid_hyphenated(u.id.0))]
}

/// The statement that updates an item's given fields and returns the updated row.
pub fn item_update_query(input: &UpdateItemInput) -> (q: SqlQuery)
    ensures
        q.sql@ == item_update_sql(*input),
        args_view(q.args@) == item_update_args(*input),
{
    let mut sql = String::new();
    let mut args: Vec<SqlArg> = Vec::new();
    push_str(&mut sql, "UPDATE items SET updated_at = CURRENT_TIMESTAMP");
    if let Some(name) = &input.name {
        push_str(&mut sql, ", name = ?");
        args.push(SqlArg::Text(name.as_str().to_owned()));
    }
    let ghost a1 = args@;
    if let Some(description) = &input.description {
        push_str(&mut sql, ", description = ?");
        args.push(SqlArg::Text(description.as_str().to_owned()));
    }
    let ghost a2 = args@;
    if let Some(category_id) = &input.category_id {
        push_str(&mut sql, ", category_id = ?");
        args.push(SqlArg::Text(category_id.to_string()));
    }
    let ghost a3 = args@;
    if let Some(unit_cost) = &input.unit_cost {
        push_str(&mut sql, ", unit_cost = ?");
        args.push(SqlArg::Int(unit_cost.0));
    }
    let ghost a4 = args@;
    if let Some(reorder_threshold) = &input.reorder_threshold {
        push_str(&mut sql, ", reorder_threshold = ?");
        args.push(SqlArg::Int(*reorder_threshold as i64));
    }
    let ghost a5 = args@;
    push_str(&mut sql, " WHERE id = ? RETURNING *");
    args.push(SqlArg::Text(input.id.to_string()));
    proof {
        assert(sql@ =~= item_update_sql(*input));
        assert(args_view(a1) =~= arg_when(input.name is Some, ArgView::Text(input.name->0@)));
        assert(args_view(a2) =~= args_view(a1) + arg_when(input.description is Some, ArgView::Text(input.description->0@)));
        assert(args_view(a3) =~= args_view(a2) + arg_when(input.category_id is Some, ArgView::Text(uuid_hyphenated(input.category_id.unwrap().0))));
        assert(args_view(a4) =~= args_view(a3) + arg_when(input.unit_cost is Some, ArgView::Int(input.unit_cost.unwrap().0)));
        assert(args_view(a5) =~= args_view(a4) + arg_when(input.reorder_threshold is Some, ArgView::Int(input.reorder_threshold->0 as i64)));
        assert(args_view(args@) =~= item_update_args(*input));
    }
    SqlQuery { sql, args }
}

/// The number of `?` placeholders in a SQL text.
pub open spec fn placeholders(sql: Seq<char>) -> nat
    decreases sql.len(),
{
    if sql.len() == 0 {
        0
    } else {
        placeholders(sql.drop_last()) + if sql.last() == '?' { 1nat } else { 0nat }
    }
}

/// The statement holds `clause` somewhere, and the argument bound to the first
/// placeholder from there on (the one after as many arguments as placeholders come
/// before it) is `v`.
pub open spec fn binds(sql: Seq<char>, args: Seq<ArgView>, clause: Seq<char>, v: ArgView) -> bool {
    exists|p: int| #![trigger sql.subrange(0, p)]
        0 <= p && p + clause.len() <= sql.len()
        && sql.subrange(p, p + clause.len()) == clause
        && placeholders(sql.subrange(0, p)) < args.len()
        && args[placeholders(sql.subrange(0, p)) as int] == v
}

proof fn lemma_placeholders_concat(a: Seq<char>, b: Seq<char>)
    ensures
        placeholders(a + b) == placeholders(a) + placeholders(b),
    decreases b.len(),
{
    if b.len() > 0 {
        assert((a + b).drop_last() =~= a + b.drop_last());
        lemma_placeholders_concat(a, b.drop_last());
    }
}

proof fn lemma_no_placeholders(s: Seq<char>)
    requires
        forall|i: int| 0 <= i < s.len() ==> s[i] != '?',
    ensures
        placeholders(s) == 0,
    decreases s.len(),
{
    if s.len() > 0 {
        lemma_no_placeholders(s.drop_last());
    }
}

/// A clause that ends in its only placeholder.
proof fn lemma_one_placeholder(s: Seq<char>)
    requires
        s.len() > 0,
        s.last() == '?',
        forall|i: int| 0 <= i < s.len() - 1 ==> s[i] != '?',
    ensures
        placeholders(s) == 1,
{
    lemma_no_placeholders(s.drop_last());
}

/// A clause placed after a prefix that holds one placeholder per argument already bound
/// binds the next argument.
proof fn lemma_clause_binds(pre: Seq<char>, clause: Seq<char>, post: Seq<char>, pargs: Seq<ArgView>, v: ArgView, rest: Seq<ArgView>)
    requires
        placeholders(pre) == pargs.len(),
    ensures
        binds(pre + clause + post, pargs + seq![v] + rest, clause, v),
{
    let sql = pre + clause + post;
    let args = pargs + seq![v] + rest;
    let p = pre.len() as int;
    assert(sql.subrange(0, p) =~= pre);
    assert(sql.subrange(p, p + clause.len()) =~= clause);
    assert(args[pargs.len() as int] == v);
}

/// The number of `?` in a field clause of an update: one, at its end.
proof fn lemma_update_clauses()
    ensures
        placeholders("UPDATE items SET updated_at = CURRENT_TIMESTAMP"@) == 0,
        placeholders(", name = ?"@) == 1,
        placeholders(", description = ?"@) == 1,
        placeholders(", category_id = ?"@) == 1,
        placeholders(", unit_cost = ?"@) == 1,
        placeholders(", reorder_threshold = ?"@) == 1,
        " WHERE id = ? RETURNING *"@ == " WHERE id = ?"@ + " RETURNING *"@,
{
    reveal_strlit("UPDATE items SET updated_at = CURRENT_TIMESTAMP");
    reveal_strlit(", name = ?");
    reveal_strlit(", description = ?");
    reveal_strlit(", category_id = ?");
    reveal_strlit(", unit_cost = ?");
    reveal_strlit(", reorder_threshold = ?");
    reveal_strlit(" WHERE id = ? RETURNING *");
    reveal_strlit(" WHERE id = ?");
    reveal_strlit(" RETURNING *");
    lemma_no_placeholders("UPDATE items SET updated_at = CURRENT_TIMESTAMP"@);
    lemma_one_placeholder(", name = ?"@);
    lemma_one_placeholder(", description = ?"@);
    lemma_one_placeholder(", category_id = ?"@);
    lemma_one_placeholder(", unit_cost = ?"@);
    lemma_one_placeholder(", reorder_threshold = ?"@);
    assert(" WHERE id = ? RETURNING *"@ =~= " WHERE id = ?"@ + " RETURNING *"@);
}

/// Regrouping a left-nested concatenation so that everything after `q` forms one part.
proof fn lemma_regroup<T>(q: Seq<T>, x: Seq<T>, y: Seq<T>, z: Seq<T>, w: Seq<T>)
    ensures
        q + x + y + z + w == q + (x + y + z + w),
        q + x + y + z == q + (x + y + z),
        q + x + y == q + (x + y),
{
    vstd::seq_lib::lemma_concat_associative(q, x, y);
    vstd::seq_lib::lemma_concat_associative(q, x + y, z);
    vstd::seq_lib::lemma_concat_associative(q, x + y + z, w);
}

/// The clause of field `k` of an item update binds `v`, where the statement and the
/// arguments are `q + clause + rest` and `qa + [v] + rest_args`, and `q` holds one
/// placeholder per argument of `qa`.
proof fn lemma_field_binds(
    q: Seq<char>, clause: Seq<char>, x: Seq<char>, y: Seq<char>, z: Seq<char>, w: Seq<char>,
    qa: Seq<ArgView>, v: ArgView, xa: Seq<ArgView>, ya: Seq<ArgView>, za: Seq<ArgView>, wa: Seq<ArgView>,
)
    requires
        placeholders(q) == qa.len(),
    ensures
        binds(q + clause + x + y + z + w, qa + seq![v] + xa + ya + za + wa, clause, v),
{
    lemma_regroup(q + clause, x, y, z, w);
    lemma_regroup(qa + seq![v], xa, ya, za, wa);
    lemma_clause_binds(q, clause, x + y + z + w, qa, v, xa + ya + za + wa);
}

/// An item update writes every field it is given and nothing else: for each given field
/// the statement sets that column and binds the given value at that placeholder, the
/// item's id is bound in the `WHERE` clause, and there is one argument per given field
/// plus the id.
#[verifier::spinoff_prover]
pub proof fn law_item_update_sets_given_fields(u: UpdateItemInput)
    ensures
        ({
            let sql = item_update_sql(u);
            let args = item_update_args(u);
            &&& u.name matches Some(n) ==> binds(sql, args, ", name = ?"@, ArgView::Text(n@))
            &&& u.description matches Some(d) ==> binds(sql, args, ", description = ?"@, ArgView::Text(d@))
            &&& u.category_id matches Some(c) ==> binds(sql, args, ", category_id = ?"@, ArgView::Text(uuid_hyphenated(c.0)))
            &&& u.unit_cost matches Some(m) ==> binds(sql, args, ", unit_cost = ?"@, ArgView::Int(m.0))
            &&& u.reorder_threshold matches Some(t) ==> binds(sql, args, ", reorder_threshold = ?"@, ArgView::Int(t as i64))
            &&& binds(sql, args, " WHERE id = ?"@, ArgView::Text(uuid_hyphenated(u.id.0)))
            &&& args.len() == 1 + (if u.name is Some { 1int } else { 0 }) + (if u.description is Some { 1int } else { 0 })
                + (if u.category_id is Some { 1int } else { 0 }) + (if u.unit_cost is Some { 1int } else { 0 })
                + (if u.reorder_threshold is Some { 1int } else { 0 })
        }),
{
    lemma_update_clauses();
    let b = "UPDATE items SET updated_at = CURRENT_TIMESTAMP"@;
    let w1 = when(u.name is Some, ", name = ?"@);
    let w2 = when(u.description is Some, ", description = ?"@);
    let w3 = when(u.category_id is Some, ", category_id = ?"@);
    let w4 = when(u.unit_cost is Some, ", unit_cost = ?"@);
    let w5 = when(u.reorder_threshold is Some, ", reorder_threshold = ?"@);
    let wh = " WHERE id = ?"@;
    let tail = " RETURNING *"@;
    let a1 = arg_when(u.name is Some, ArgView::Text(u.name->0@));
    let a2 = arg_when(u.description is Some, ArgView::Text(u.description->0@));
    let a3 = arg_when(u.category_id is Some, ArgView::Text(uuid_hyphenated(u.category_id.unwrap().0)));
    let a4 = arg_when(u.unit_cost is Some, ArgView::Int(u.unit_cost.unwrap().0));
    let a5 = arg_when(u.reorder_threshold is Some, ArgView::Int(u.reorder_threshold->0 as i64));
    let aid = ArgView::Text(uuid_hyphenated(u.id.0));
    let e = Seq::<char>::empty();
    let ea = Seq::<ArgView>::empty();
    assert(item_update_sql(u) == b + w1 + w2 + w3 + w4 + w5 + (wh + tail));
    vstd::seq_lib::lemma_concat_associative(b + w1 + w2 + w3 + w4 + w5, wh, tail);
    assert(placeholders(e) == 0);
    lemma_placeholders_concat(b, w1);
    lemma_placeholders_concat(b + w1, w2);
    lemma_placeholders_concat(b + w1 + w2, w3);
    lemma_placeholders_concat(b + w1 + w2 + w3, w4);
    lemma_placeholders_concat(b + w1 + w2 + w3 + w4, w5);
    assert(ea + a1 == a1);
    assert(b + e == b);
    if u.name is Some {
        assert(a1 == seq![a1[0]]);
        lemma_field_binds(b, w1, w2, w3, w4, w5 + (wh + tail), ea, a1[0], a2, a3, a4, a5 + seq![aid]);
        vstd::seq_lib::lemma_concat_associative(b + w1 + w2 + w3 + w4, w5, wh + tail);
        vstd::seq_lib::lemma_concat_associative(a1 + a2 + a3 + a4, a5, seq![aid]);
        assert(ea + seq![a1[0]] == a1);
    }
    if u.description is Some {
        assert(a2 == seq![a2[0]]);
        lemma_field_binds(b + w1, w2, w3, w4, w5, wh + tail, a1, a2[0], a3, a4, a5, seq![aid]);
    }
    if u.category_id is Some {
        assert(a3 == seq![a3[0]]);
        lemma_field_binds(b + w1 + w2, w3, w4, w5, wh + tail, e, a1 + a2, a3[0], a4, a5, seq![aid], ea);
        assert(b + w1 + w2 + w3 + w4 + w5 + (wh + tail) + e == b + w1 + w2 + w3 + w4 + w5 + (wh + tail));
        assert(a1 + a2 + a3 + a4 + a5 + seq![aid] + ea == a1 + a2 + a3 + a4 + a5 + seq![aid]);
    }
    if u.unit_cost is Some {
        assert(a4 == seq![a4[0]]);
        lemma_field_binds(b + w1 + w2 + w3, w4, w5, wh + tail, e, e, a1 + a2 + a3, a4[0], a5, seq![aid], ea, ea);
        assert(b + w1 + w2 + w3 + w4 + w5 + (wh + tail) + e + e == b + w1 + w2 + w3 + w4 + w5 + (wh + tail));
        assert(a1 + a2 + a3 + a4 + a5 + seq![aid] + ea + ea == a1 + a2 + a3 + a4 + a5 + seq![aid]);
    }
    if u.reorder_threshold is Some {
        assert(a5 == seq![a5[0]]);
        lemma_field_binds(b + w1 + w2 + w3 + w4, w5, wh + tail, e, e, e, a1 + a2 + a3 + a4, a5[0], seq![aid], ea, ea, ea);
        assert(b + w1 + w2 + w3 + w4 + w5 + (wh + tail) + e + e + e == b + w1 + w2 + w3 + w4 + w5 + (wh + tail));
        assert(a1 + a2 + a3 + a4 + a5 + seq![aid] + ea + ea + ea == a1 + a2 + a3 + a4 + a5 + seq![aid]);
    }
    lemma_field_binds(b + w1 + w2 + w3 + w4 + w5, wh, tail, e, e, e, a1 + a2 + a3 + a4 + a5, aid, ea, ea, ea, ea);
    assert(b + w1 + w2 + w3 + w4 + w5 + wh + tail + e + e + e == b + w1 + w2 + w3 + w4 + w5 + wh + tail);
    assert(a1 + a2 + a3 + a4 + a5 + seq![aid] + ea + ea + ea + ea == a1 + a2 + a3 + a4 + a5 + seq![aid]);
}

/// A two-field update (`b`, then the first clause where given, then the second one where
/// given, after a comma when the first is there too, then `WHERE`) binds each given value
/// at its clause and the id in the `WHERE` clause.
proof fn lemma_two_field_update(
    b: Seq<char>, c1: Seq<char>, c2: Seq<char>, g1: bool, g2: bool, v1: ArgView, v2: ArgView, vid: ArgView,
)
    requires
        placeholders(b) == 0,
        placeholders(c1) == 1,
        placeholders(c2) == 1,
        placeholders(","@) == 0,
    ensures
        ({
            let sql = b + when(g1, c1) + when(g2, when(g1, ","@) + c2) + (" WHERE id = ?"@ + " RETURNING *"@);
            let args = arg_when(g1, v1) + arg_when(g2, v2) + seq![vid];
            &&& g1 ==> binds(sql, args, c1, v1)
            &&& g2 ==> binds(sql, args, c2, v2)
            &&& binds(sql, args, " WHERE id = ?"@, vid)
            &&& args.len() == 1 + (if g1 { 1int } else { 0 }) + (if g2 { 1int } else { 0 })
        }),
{
    let w1 = when(g1, c1);
    let cm = when(g1, ","@);
    let w2 = when(g2, cm + c2);
    let wh = " WHERE id = ?"@;
    let tail = " RETURNING *"@;
    let a1 = arg_when(g1, v1);
    let a2 = arg_when(g2, v2);
    let e = Seq::<char>::empty();
    let ea = Seq::<ArgView>::empty();
    assert(placeholders(e) == 0);
    lemma_placeholders_concat(b, w1);
    lemma_placeholders_concat(b + w1, cm);
    lemma_placeholders_concat(b + w1, w2);
    lemma_placeholders_concat(cm, c2);
    vstd::seq_lib::lemma_concat_associative(b + w1 + w2, wh, tail);
    if g1 {
        assert(a1 == seq![v1]);
        vstd::seq_lib::lemma_concat_associative(b + w1, w2, wh + tail);
        vstd::seq_lib::lemma_concat_associative(a1, a2, seq![vid]);
        assert(ea + seq![v1] == a1);
        assert(b + e == b);
        lemma_clause_binds(b, c1, w2 + (wh + tail), ea, v1, a2 + seq![vid]);
    }
    if g2 {
        assert(a2 == seq![v2]);
        vstd::seq_lib::lemma_concat_associative(b + w1, cm, c2);
        assert(b + w1 + w2 == b + w1 + cm + c2);
        lemma_clause_binds(b + w1 + cm, c2, wh + tail, a1, v2, seq![vid]);
    }
    lemma_clause_binds(b + w1 + w2, wh, tail, a1 + a2, vid, ea);
    assert(a1 + a2 + seq![vid] + ea == a1 + a2 + seq![vid]);
}

/// A category update writes the fields it is given: the name at ` name = ?`, the
/// description at ` description = ?` (after a comma when the name is given too), and the
/// id in the `WHERE` clause, with one argument per given field plus the id.
pub proof fn law_category_update_sets_given_fields(u: UpdateCategoryInput)
    ensures
        ({
            let sql = category_update_sql(u);
            let args = category_update_args(u);
            &&& u.name matches Some(n) ==> binds(sql, args, " name = ?"@, ArgView::Text(n.0@))
            &&& u.description matches Some(d) ==> binds(sql, args, " description = ?"@, ArgView::Text(d@))
            &&& u.name is Some && u.description is Some ==> binds(sql, args, ", description = ?"@, ArgView::Text(u.description->0@))
            &&& binds(sql, args, " WHERE id = ?"@, ArgView::Text(uuid_hyphenated(u.id.0)))
            &&& args.len() == 1 + (if u.name is Some { 1int } else { 0 }) + (if u.description is Some { 1int } else { 0 })
        }),
{
    let b = "UPDATE categories SET "@;
    reveal_strlit("UPDATE categories SET ");
    reveal_strlit(" name = ?");
    reveal_strlit(" description = ?");
    reveal_strlit(", description = ?");
    reveal_strlit(",");
    reveal_strlit(" WHERE id = ? RETURNING *");
    reveal_strlit(" WHERE id = ?");
    reveal_strlit(" RETURNING *");
    lemma_no_placeholders(b);
    lemma_one_placeholder(" name = ?"@);
    lemma_one_placeholder(" description = ?"@);
    lemma_no_placeholders(","@);
    assert(" WHERE id = ? RETURNING *"@ =~= " WHERE id = ?"@ + " RETURNING *"@);
    assert(", description = ?"@ =~= ","@ + " description = ?"@);
    let g1 = u.name is Some;
    let g2 = u.description is Some;
    let v1 = ArgView::Text(u.name.unwrap().0@);
    let v2 = ArgView::Text(u.description->0@);
    let vid = ArgView::Text(uuid_hyphenated(u.id.0));
    lemma_two_field_update(b, " name = ?"@, " description = ?"@, g1, g2, v1, v2, vid);
    assert(category_update_sql(u) == b + when(g1, " name = ?"@) + when(g2, when(g1, ","@) + " description = ?"@)
        + (" WHERE id = ?"@ + " RETURNING *"@));
    if g1 && g2 {
        let w1 = " name = ?"@;
        let sql = category_update_sql(u);
        let args = category_update_args(u);
        vstd::seq_lib::lemma_concat_associative(b + w1, ","@, " description = ?"@);
        lemma_placeholders_concat(b, w1);
        lemma_clause_binds(b + w1, ", description = ?"@, " WHERE id = ?"@ + " RETURNING *"@, seq![v1], v2, seq![vid]);
        assert(seq![v1] + seq![v2] + seq![vid] == args);
    }
}

/// A warehouse update writes the fields it is given: the name at ` name = ?`, the
/// location at ` location = ?` (after a comma when the name is given too), and the id in
/// the `WHERE` clause, with one argument per given field plus the id.
pub proof fn law_warehouse_update_sets_given_fields(u: UpdateWarehouseInput)
    ensures
        ({
            let sql = warehouse_update_sql(u);
            let args = warehouse_update_args(u);
            &&& u.name matches Some(n) ==> binds(sql, args, " name = ?"@, ArgView::Text(n.0@))
            &&& u.location matches Some(l) ==> binds(sql, args, " location = ?"@, ArgView::Text(l@))
            &&& u.name is Some && u.location is Some ==> binds(sql, args, ", location = ?"@, ArgView::Text(u.location->0@))
            &&& binds(sql, args, " WHERE id = ?"@, ArgView::Text(uuid_hyphenated(u.id.0)))
            &&& args.len() == 1 + (if u.name is Some { 1int } else { 0 }) + (if u.location is Some { 1int } else { 0 })
        }),
{
    let b = "UPDATE warehouses SET "@;
    reveal_strlit("UPDATE warehouses SET ");
    reveal_strlit(" name = ?");
    reveal_strlit(" location = ?");
    reveal_strlit(", location = ?");
    reveal_strlit(",");
    reveal_strlit(" WHERE id = ? RETURNING *");
    reveal_strlit(" WHERE id = ?");
    reveal_strlit(" RETURNING *");
    lemma_no_placeholders(b);
    lemma_one_placeholder(" name = ?"@);
    lemma_one_placeholder(" location = ?"@);
    lemma_no_placeholders(","@);
    assert(" WHERE id = ? RETURNING *"@ =~= " WHERE id = ?"@ + " RETURNING *"@);
    assert(", location = ?"@ =~= ","@ + " location = ?"@);
    let g1 = u.name is Some;
    let g2 = u.location is Some;
    let v1 = ArgView::Text(u.name.unwrap().0@);
    let v2 = ArgView::Text(u.location->0@);
    let vid = ArgView::Text(uuid_hyphenated(u.id.0));
    lemma_two_field_update(b, " name = ?"@, " location = ?"@, g1, g2, v1, v2, vid);
    assert(warehouse_update_sql(u) == b + when(g1, " name = ?"@) + when(g2, when(g1, ","@) + " location = ?"@)
        + (" WHERE id = ?"@ + " RETURNING *"@));
    if g1 && g2 {
        let w1 = " name = ?"@;
        let args = warehouse_update_args(u);
        vstd::seq_lib::lemma_concat_associative(b + w1, ","@, " location = ?"@);
        lemma_placeholders_concat(b, w1);
        lemma_clause_binds(b + w1, ", location = ?"@, " WHERE id = ?"@ + " RETURNING *"@, seq![v1], v2, seq![vid]);
        assert(seq![v1] + seq![v2] + seq![vid] == args);
    }
}

/// The placeholders in the fixed parts of an item listing, and how its long parts split.
proof fn lemma_item_list_literals()
    ensures
        placeholders("SELECT items.*, COALESCE(SUM(stock_levels.quantity), 0) AS total_quantity FROM items LEFT JOIN stock_levels ON stock_levels.item_id = items.id WHERE 1 = 1"@) == 0,
        placeholders(" AND items.category_id = ?"@) == 1,
        placeholders(" AND stock_levels.quantity < items.reorder_threshold"@) == 0,
        placeholders(" AND (LOWER(items.name) LIKE ?"@) == 1,
        placeholders(" OR LOWER(COALESCE(items.description, '')) LIKE ?"@) == 1,
        placeholders(")"@) == 0,
        placeholders(" GROUP BY items.id"@) == 0,
        placeholders(" LIMIT ?"@) == 1,
        " AND (LOWER(items.name) LIKE ? OR LOWER(COALESCE(items.description, '')) LIKE ?)"@
            == " AND (LOWER(items.name) LIKE ?"@ + " OR LOWER(COALESCE(items.description, '')) LIKE ?"@ + ")"@,
        " GROUP BY items.id LIMIT ? OFFSET ?"@ == " GROUP BY items.id"@ + " LIMIT ?"@ + " OFFSET ?"@,
{
    let b = "SELECT items.*, COALESCE(SUM(stock_levels.quantity), 0) AS total_quantity FROM items LEFT JOIN stock_levels ON stock_levels.item_id = items.id WHERE 1 = 1"@;
    let cat = " AND items.category_id = ?"@;
    let low = " AND stock_levels.quantity < items.reorder_threshold"@;
    let s1 = " AND (LOWER(items.name) LIKE ?"@;
    let s2 = " OR LOWER(COALESCE(items.description, '')) LIKE ?"@;
    let s3 = ")"@;
    let g = " GROUP BY items.id"@;
    let lim = " LIMIT ?"@;
    let off = " OFFSET ?"@;
    reveal_strlit("SELECT items.*, COALESCE(SUM(stock_levels.quantity), 0) AS total_quantity FROM items LEFT JOIN stock_levels ON stock_levels.item_id = items.id WHERE 1 = 1");
    reveal_strlit(" AND items.category_id = ?");
    reveal_strlit(" AND stock_levels.quantity < items.reorder_threshold");
    reveal_strlit(" AND (LOWER(items.name) LIKE ? OR LOWER(COALESCE(items.description, '')) LIKE ?)");
    reveal_strlit(" AND (LOWER(items.name) LIKE ?");
    reveal_strlit(" OR LOWER(COALESCE(items.description, '')) LIKE ?");
    reveal_strlit(")");
    reveal_strlit(" GROUP BY items.id LIMIT ? OFFSET ?");
    reveal_strlit(" GROUP BY items.id");
    reveal_strlit(" LIMIT ?");
    reveal_strlit(" OFFSET ?");
    lemma_no_placeholders(b);
    lemma_one_placeholder(cat);
    lemma_no_placeholders(low);
    lemma_one_placeholder(s1);
    lemma_one_placeholder(s2);
    lemma_no_placeholders(s3);
    lemma_no_placeholders(g);
    lemma_one_placeholder(lim);
    assert(" AND (LOWER(items.name) LIKE ? OR LOWER(COALESCE(items.description, '')) LIKE ?)"@ =~= s1 + s2 + s3);
    assert(" GROUP BY items.id LIMIT ? OFFSET ?"@ =~= g + lim + off);
}

/// An item listing applies every part of its filter: the category it names is bound at
/// `items.category_id = ?`, the below-threshold test is in the statement when asked for,
/// a search text is bound (trimmed, lower-cased, between `%` signs) at both the name and
/// the description test, and the page's size and start are bound at `LIMIT` and `OFFSET`.
#[verifier::spinoff_prover]
#[verifier::rlimit(100)]
pub proof fn law_item_list_applies_filter(f: ItemFilter)
    ensures
        ({
            let sql = item_list_sql(f);
            let args = item_list_args(f);
            &&& f.category_id matches Some(c) ==> binds(sql, args, " AND items.category_id = ?"@, ArgView::Text(uuid_hyphenated(c.0)))
            &&& f.below_threshold_only ==> has_substring(sql, " AND stock_levels.quantity < items.reorder_threshold"@)
            &&& f.search_text matches Some(t) ==> {
                let pattern = "%"@ + unicode_lowercase(trimmed(t@)) + "%"@;
                &&& binds(sql, args, " AND (LOWER(items.name) LIKE ?"@, ArgView::Text(pattern))
                &&& binds(sql, args, " OR LOWER(COALESCE(items.description, '')) LIKE ?"@, ArgView::Text(pattern))
            }
            &&& binds(sql, args, " LIMIT ?"@, ArgView::Int(f.limit as i64))
            &&& binds(sql, args, " OFFSET ?"@, ArgView::Int(f.offset as i64))
        }),
{
    let b = "SELECT items.*, COALESCE(SUM(stock_levels.quantity), 0) AS total_quantity FROM items LEFT JOIN stock_levels ON stock_levels.item_id = items.id WHERE 1 = 1"@;
    let cat = " AND items.category_id = ?"@;
    let low = " AND stock_levels.quantity < items.reorder_threshold"@;
    let s1 = " AND (LOWER(items.name) LIKE ?"@;
    let s2 = " OR LOWER(COALESCE(items.description, '')) LIKE ?"@;
    let s3 = ")"@;
    let g = " GROUP BY items.id"@;
    let lim = " LIMIT ?"@;
    let off = " OFFSET ?"@;
    lemma_item_list_literals();
    let wc = when(f.category_id is Some, cat);
    let wl = when(f.below_threshold_only, low);
    let ws = when(f.search_text is Some, s1 + s2 + s3);
    let t = g + lim + off;
    let ac = arg_when(f.category_id is Some, ArgView::Text(uuid_hyphenated(f.category_id.unwrap().0)));
    let pat = search_pattern(f.search_text->0@);
    let vp = ArgView::Text(pat);
    let asr = if f.search_text is Some { seq![vp, vp] } else { Seq::<ArgView>::empty() };
    let vl = ArgView::Int(f.limit as i64);
    let vo = ArgView::Int(f.offset as i64);
    let sql = item_list_sql(f);
    let args = item_list_args(f);
    assert(sql == b + wc + wl + ws + t);
    assert(args == ac + asr + seq![vl, vo]);
    let e = Seq::<char>::empty();
    let ea = Seq::<ArgView>::empty();
    assert(placeholders(e) == 0);
    lemma_placeholders_concat(b, wc);
    lemma_placeholders_concat(b + wc, wl);
    lemma_placeholders_concat(b + wc + wl, ws);
    lemma_placeholders_concat(s1, s2);
    lemma_placeholders_concat(s1 + s2, s3);
    lemma_placeholders_concat(b + wc + wl + ws, g);
    assert(f.category_id is Some ==> binds(sql, args, cat, ac[0])) by {
        if f.category_id is Some {
            assert(b + e == b);
            assert(ac == seq![ac[0]]);
            lemma_regroup(b + cat, wl, ws, t, e);
            lemma_clause_binds(b, cat, wl + ws + t, ea, ac[0], asr + seq![vl, vo]);
            assert(ea + seq![ac[0]] == ac);
            vstd::seq_lib::lemma_concat_associative(ac, asr, seq![vl, vo]);
        }
    }
    assert(f.below_threshold_only ==> has_substring(sql, low)) by {
        if f.below_threshold_only {
            let p = (b + wc).len() as int;
            lemma_regroup(b + wc + low, ws, t, e, e);
            assert((b + wc + low + (ws + t)).subrange(p, p + low.len()) =~= low);
        }
    }
    assert(f.search_text is Some ==> binds(sql, args, s1, vp) && binds(sql, args, s2, vp)) by {
        if f.search_text is Some {
            let q = b + wc + wl;
            vstd::seq_lib::lemma_concat_associative(q, s1 + s2, s3);
            vstd::seq_lib::lemma_concat_associative(q, s1, s2);
            lemma_regroup(q + s1, s2, s3, t, e);
            lemma_clause_binds(q, s1, s2 + s3 + t, ac, vp, seq![vp, vl, vo]);
            assert(ac + seq![vp] + seq![vp, vl, vo] =~= args);
            lemma_placeholders_concat(q, s1);
            lemma_regroup(q + s1 + s2, s3, t, e, e);
            lemma_clause_binds(q + s1, s2, s3 + t, ac + seq![vp], vp, seq![vl, vo]);
            assert(ac + seq![vp] + seq![vp] + seq![vl, vo] =~= args);
        }
    }
    assert(binds(sql, args, lim, vl) && binds(sql, args, off, vo)) by {
        let q = b + wc + wl + ws;
        lemma_regroup(q, g, lim, off, e);
        lemma_clause_binds(q + g, lim, off, ac + asr, vl, seq![vo]);
        assert(ac + asr + seq![vl] + seq![vo] =~= args);
        lemma_placeholders_concat(q + g, lim);
        assert(q + g + lim + off + e =~= sql);
        lemma_clause_binds(q + g + lim, off, e, ac + asr + seq![vl], vo, ea);
        assert(ac + asr + seq![vl] + seq![vo] + ea =~= args);
    }
}

} // verus!
