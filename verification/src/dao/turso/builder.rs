use vstd::prelude::*;

use sql_query_builder::{Insert, Select, Update};

verus! {

/// `sql_query_builder::Select`, a builder of `SELECT` statements.
#[verifier::external_type_specification]
#[verifier::external_body]
pub struct ExSelect(Select);

/// `sql_query_builder::Update`, a builder of `UPDATE` statements.
#[verifier::external_type_specification]
#[verifier::external_body]
pub struct ExUpdate(Update);

/// `sql_query_builder::Insert`, a builder of `INSERT` statements.
#[verifier::external_type_specification]
#[verifier::external_body]
pub struct ExInsert(Insert);

// ---------------------------------------------------------------------------
// Text as the builders keep it
// ---------------------------------------------------------------------------

/// Whether `c` is white space, as `char::is_whitespace` and `str::trim` take it: the
/// characters of the Unicode property `White_Space`.
pub open spec fn is_whitespace(c: char) -> bool {
    ('\t' <= c && c <= '\r') || c == ' ' || c == '\u{85}' || c == '\u{a0}' || c == '\u{1680}' || ('\u{2000}'
        <= c && c <= '\u{200a}') || c == '\u{2028}' || c == '\u{2029}' || c == '\u{202f}' || c == '\u{205f}'
        || c == '\u{3000}'
}

/// The text without its leading white space.
pub open spec fn trim_start(s: Seq<char>) -> Seq<char>
    decreases s.len(),
{
    if s.len() > 0 && is_whitespace(s[0]) {
        trim_start(s.drop_first())
    } else {
        s
    }
}

/// The text without its trailing white space.
pub open spec fn trim_end(s: Seq<char>) -> Seq<char>
    decreases s.len(),
{
    if s.len() > 0 && is_whitespace(s.last()) {
        trim_end(s.drop_last())
    } else {
        s
    }
}

/// `str::trim`: the text without leading and trailing white space.
pub open spec fn trimmed(s: Seq<char>) -> Seq<char> {
    trim_end(trim_start(s))
}

/// Whether the text holds nothing but white space.
pub open spec fn is_blank(s: Seq<char>) -> bool {
    forall|i: int| 0 <= i < s.len() ==> is_whitespace(#[trigger] s[i])
}

/// The list with `v` added at its end, unless it holds `v` already.
pub open spec fn push_unique(list: Seq<Seq<char>>, v: Seq<char>) -> Seq<Seq<char>> {
    if list.contains(v) {
        list
    } else {
        list.push(v)
    }
}

/// The texts of `list` joined by `sep`.
pub open spec fn join_texts(list: Seq<Seq<char>>, sep: Seq<char>) -> Seq<char>
    decreases list.len(),
{
    if list.len() == 0 {
        Seq::empty()
    } else if list.len() == 1 {
        list[0]
    } else {
        join_texts(list.drop_last(), sep) + sep + list.last()
    }
}

/// The texts of `list` that are not empty, in order.
pub open spec fn non_empty(list: Seq<Seq<char>>) -> Seq<Seq<char>> {
    list.filter(|t: Seq<char>| t.len() > 0)
}

/// A clause of a statement: its keyword, a space, its body and a space; nothing
/// where it is absent.
pub open spec fn clause(present: bool, keyword: Seq<char>, body: Seq<char>) -> Seq<char> {
    if present {
        keyword + " "@ + body + " "@
    } else {
        Seq::empty()
    }
}

// ---------------------------------------------------------------------------
// What a `Select` holds
// ---------------------------------------------------------------------------

/// The columns of the `SELECT` clause of a builder, in order.
pub uninterp spec fn select_columns(s: Select) -> Seq<Seq<char>>;

/// The tables of the `FROM` clause of a builder, in order.
pub uninterp spec fn select_tables(s: Select) -> Seq<Seq<char>>;

/// The joins of a builder, in order, each as its whole text (`LEFT JOIN t`).
pub uninterp spec fn select_joins(s: Select) -> Seq<Seq<char>>;

/// The conditions of the `WHERE` clause of a builder, in order, each joined to the one
/// before by `AND`.
pub uninterp spec fn select_wheres(s: Select) -> Seq<Seq<char>>;

/// The columns of the `ORDER BY` clause of a builder, in order.
pub uninterp spec fn select_orders(s: Select) -> Seq<Seq<char>>;

/// The text of the `LIMIT` clause of a builder; empty when there is none.
pub uninterp spec fn select_limit_text(s: Select) -> Seq<char>;

/// The text of the `OFFSET` clause of a builder; empty when there is none.
pub uninterp spec fn select_offset_text(s: Select) -> Seq<char>;

/// The texts of the clauses of a builder that the library does not set (raw text,
/// `GROUP BY`, `HAVING`, `WINDOW`, `WITH`, combined queries, ...); empty when none is set.
pub uninterp spec fn select_others(s: Select) -> Seq<Seq<char>>;

/// The text that `as_string` gives for a builder holding these clauses and no other:
/// the clauses in order, each followed by a space, lists of columns, tables and orders
/// joined by `, ` and conditions by ` AND ` (empty texts left out of them), and the
/// trailing white space removed.
pub open spec fn select_text(
    columns: Seq<Seq<char>>,
    tables: Seq<Seq<char>>,
    joins: Seq<Seq<char>>,
    wheres: Seq<Seq<char>>,
    orders: Seq<Seq<char>>,
    limit: Seq<char>,
    offset: Seq<char>,
) -> Seq<char> {
    trim_end(
        clause(columns.len() > 0, "SELECT"@, join_texts(non_empty(columns), ", "@))
            + clause(tables.len() > 0, "FROM"@, join_texts(non_empty(tables), ", "@))
            + (if joins.len() > 0 { join_texts(joins, " "@) + " "@ } else { Seq::empty() })
            + clause(wheres.len() > 0, "WHERE"@, join_texts(non_empty(wheres), " AND "@))
            + clause(orders.len() > 0, "ORDER BY"@, join_texts(non_empty(orders), ", "@))
            + clause(limit.len() > 0, "LIMIT"@, limit)
            + clause(offset.len() > 0, "OFFSET"@, offset),
    )
}

/// A call made on a `Select` builder, with its argument.
pub enum SelectCall {
    Select(Seq<char>),
    From(Seq<char>),
    LeftJoin(Seq<char>),
    WhereAnd(Seq<char>),
    OrderBy(Seq<char>),
    Limit(Seq<char>),
    Offset(Seq<char>),
}

/// What a `Select` builder holds, clause by clause.
pub struct SelectState {
    pub columns: Seq<Seq<char>>,
    pub tables: Seq<Seq<char>>,
    pub joins: Seq<Seq<char>>,
    pub wheres: Seq<Seq<char>>,
    pub orders: Seq<Seq<char>>,
    pub limit: Seq<char>,
    pub offset: Seq<char>,
    pub others: Seq<Seq<char>>,
}

/// What the builder `s` holds.
pub open spec fn select_view(s: Select) -> SelectState {
    SelectState {
        columns: select_columns(s),
        tables: select_tables(s),
        joins: select_joins(s),
        wheres: select_wheres(s),
        orders: select_orders(s),
        limit: select_limit_text(s),
        offset: select_offset_text(s),
        others: select_others(s),
    }
}

/// A builder that holds nothing.
pub open spec fn empty_select() -> SelectState {
    SelectState {
        columns: seq![],
        tables: seq![],
        joins: seq![],
        wheres: seq![],
        orders: seq![],
        limit: seq![],
        offset: seq![],
        others: seq![],
    }
}

/// What a builder holds after one call: the argument is trimmed; a list keeps a text
/// once; an empty join is dropped; the limit and the offset replace the earlier ones.
pub open spec fn select_step(st: SelectState, c: SelectCall) -> SelectState {
    match c {
        SelectCall::Select(t) => SelectState { columns: push_unique(st.columns, trimmed(t)), ..st },
        SelectCall::From(t) => SelectState { tables: push_unique(st.tables, trimmed(t)), ..st },
        SelectCall::LeftJoin(t) => if trimmed(t).len() == 0 {
            st
        } else {
            SelectState { joins: push_unique(st.joins, "LEFT JOIN "@ + trimmed(t)), ..st }
        },
        SelectCall::WhereAnd(t) => SelectState { wheres: push_unique(st.wheres, trimmed(t)), ..st },
        SelectCall::OrderBy(t) => SelectState { orders: push_unique(st.orders, trimmed(t)), ..st },
        SelectCall::Limit(t) => SelectState { limit: trimmed(t), ..st },
        SelectCall::Offset(t) => SelectState { offset: trimmed(t), ..st },
    }
}

/// What a new builder holds after the calls, in order.
pub open spec fn select_state(calls: Seq<SelectCall>) -> SelectState
    decreases calls.len(),
{
    if calls.len() == 0 {
        empty_select()
    } else {
        select_step(select_state(calls.drop_last()), calls.last())
    }
}

/// The text that `as_string` gives for a builder holding `st`.
pub open spec fn select_state_text(st: SelectState) -> Seq<char> {
    select_text(st.columns, st.tables, st.joins, st.wheres, st.orders, st.limit, st.offset)
}

/// Whether `as_string` can write the conditions: there are none, or one is not empty
/// (with only empty conditions the builder panics).
pub open spec fn wheres_writable(ws: Seq<Seq<char>>) -> bool {
    ws.len() == 0 || exists|i: int| 0 <= i < ws.len() && (#[trigger] ws[i]).len() > 0
}

/// `Select::new()`: a builder that holds nothing.
#[verifier::external_body]
pub(crate) fn select_new() -> (r: Select)
    ensures
        select_columns(r) == Seq::<Seq<char>>::empty(),
        select_tables(r) == Seq::<Seq<char>>::empty(),
        select_joins(r) == Seq::<Seq<char>>::empty(),
        select_wheres(r) == Seq::<Seq<char>>::empty(),
        select_orders(r) == Seq::<Seq<char>>::empty(),
        select_limit_text(r) == Seq::<char>::empty(),
        select_offset_text(r) == Seq::<char>::empty(),
        select_others(r) == Seq::<Seq<char>>::empty(),
{
    Select::new()
}

/// `Select::select`: adds the trimmed column to the `SELECT` clause unless it is there.
#[verifier::external_body]
pub(crate) fn select_column(s: Select, column: &str) -> (r: Select)
    ensures
        select_view(r) == select_step(select_view(s), SelectCall::Select(column@)),
{
    s.select(column)
}

/// `Select::from`: adds the trimmed table to the `FROM` clause unless it is there.
#[verifier::external_body]
pub(crate) fn select_from(s: Select, table: &str) -> (r: Select)
    ensures
        select_view(r) == select_step(select_view(s), SelectCall::From(table@)),
{
    s.from(table)
}

/// `Select::left_join`: adds `LEFT JOIN` and the trimmed table unless the table is
/// empty or the join is there.
#[verifier::external_body]
pub(crate) fn select_left_join(s: Select, table: &str) -> (r: Select)
    ensures
        select_view(r) == select_step(select_view(s), SelectCall::LeftJoin(table@)),
{
    s.left_join(table)
}

/// `Select::where_and`: adds the trimmed condition, joined by `AND`, unless it is there.
#[verifier::external_body]
pub(crate) fn select_where_and(s: Select, condition: &str) -> (r: Select)
    ensures
        select_view(r) == select_step(select_view(s), SelectCall::WhereAnd(condition@)),
{
    s.where_and(condition)
}

/// `Select::order_by`: adds the trimmed column to the `ORDER BY` clause unless it is
/// there.
#[verifier::external_body]
pub(crate) fn select_order_by(s: Select, column: &str) -> (r: Select)
    ensures
        select_view(r) == select_step(select_view(s), SelectCall::OrderBy(column@)),
{
    s.order_by(column)
}

/// `Select::limit`: sets the `LIMIT` clause to the trimmed text, replacing any earlier.
#[verifier::external_body]
pub(crate) fn select_limit(s: Select, num: &str) -> (r: Select)
    ensures
        select_view(r) == select_step(select_view(s), SelectCall::Limit(num@)),
{
    s.limit(num)
}

/// `Select::offset`: sets the `OFFSET` clause to the trimmed text, replacing any earlier.
#[verifier::external_body]
pub(crate) fn select_offset(s: Select, num: &str) -> (r: Select)
    ensures
        select_view(r) == select_step(select_view(s), SelectCall::Offset(num@)),
{
    s.offset(num)
}

/// `Select::as_string`: the statement as one line of SQL, as `select_text` states it.
/// It is called only on a builder with no other clause, whose conditions it can write
/// (with only empty conditions the builder panics).
#[verifier::external_body]
pub(crate) fn select_as_string(s: &Select) -> (r: String)
    requires
        select_others(*s).len() == 0,
        wheres_writable(select_wheres(*s)),
    ensures
        r@ == select_text(
            select_columns(*s),
            select_tables(*s),
            select_joins(*s),
            select_wheres(*s),
            select_orders(*s),
            select_limit_text(*s),
            select_offset_text(*s),
        ),
{
    s.as_string()
}

// ---------------------------------------------------------------------------
// What an `Update` holds
// ---------------------------------------------------------------------------

/// The table that an `Update` builder updates; empty when none is set.
pub uninterp spec fn update_table_text(u: Update) -> Seq<char>;

/// The assignments of the `SET` clause of a builder, in order.
pub uninterp spec fn update_sets(u: Update) -> Seq<Seq<char>>;

/// The conditions of the `WHERE` clause of a builder, in order, joined by `AND`.
pub uninterp spec fn update_wheres(u: Update) -> Seq<Seq<char>>;

/// What a builder holds besides its table, assignments and conditions (raw text,
/// `FROM`, `RETURNING`, `WITH`, `ORDER BY`, `LIMIT`, `OFFSET`, an `UPDATE OR` form);
/// empty for a plain update with none of them.
pub uninterp spec fn update_others(u: Update) -> Seq<Seq<char>>;

/// The text that `as_string` gives for a plain update holding these clauses only: the
/// clauses in order, each followed by a space, assignments joined by `, ` and
/// conditions by ` AND ` (empty texts left out of them), and the trailing white space
/// removed.
pub open spec fn update_text(table: Seq<char>, sets: Seq<Seq<char>>, wheres: Seq<Seq<char>>) -> Seq<char> {
    trim_end(
        clause(table.len() > 0, "UPDATE"@, table)
            + clause(sets.len() > 0, "SET"@, join_texts(non_empty(sets), ", "@))
            + clause(wheres.len() > 0, "WHERE"@, join_texts(non_empty(wheres), " AND "@)),
    )
}

/// A call made on an `Update` builder, with its argument.
pub enum UpdateCall {
    Update(Seq<char>),
    SetValue(Seq<char>),
    WhereAnd(Seq<char>),
}

/// What an `Update` builder holds, clause by clause.
pub struct UpdateState {
    pub table: Seq<char>,
    pub sets: Seq<Seq<char>>,
    pub wheres: Seq<Seq<char>>,
}

/// What the builder `u` holds in the clauses that the library sets.
pub open spec fn update_view(u: Update) -> UpdateState {
    UpdateState { table: update_table_text(u), sets: update_sets(u), wheres: update_wheres(u) }
}

/// What a builder holds after one call: the argument is trimmed; the table replaces
/// the earlier one; a list keeps a text once.
pub open spec fn update_step(st: UpdateState, c: UpdateCall) -> UpdateState {
    match c {
        UpdateCall::Update(t) => UpdateState { table: trimmed(t), ..st },
        UpdateCall::SetValue(t) => UpdateState { sets: push_unique(st.sets, trimmed(t)), ..st },
        UpdateCall::WhereAnd(t) => UpdateState { wheres: push_unique(st.wheres, trimmed(t)), ..st },
    }
}

/// What a new builder holds after the calls, in order.
pub open spec fn update_state(calls: Seq<UpdateCall>) -> UpdateState
    decreases calls.len(),
{
    if calls.len() == 0 {
        UpdateState { table: seq![], sets: seq![], wheres: seq![] }
    } else {
        update_step(update_state(calls.drop_last()), calls.last())
    }
}

/// The text that `as_string` gives for a builder holding `st`.
pub open spec fn update_state_text(st: UpdateState) -> Seq<char> {
    update_text(st.table, st.sets, st.wheres)
}

/// `Update::new()`: a builder that holds nothing.
#[verifier::external_body]
pub(crate) fn update_new() -> (r: Update)
    ensures
        update_table_text(r) == Seq::<char>::empty(),
        update_sets(r) == Seq::<Seq<char>>::empty(),
        update_wheres(r) == Seq::<Seq<char>>::empty(),
        update_others(r) == Seq::<Seq<char>>::empty(),
{
    Update::new()
}

/// `Update::update`: sets the table to the trimmed name, replacing any earlier.
#[verifier::external_body]
pub(crate) fn update_table(u: Update, table: &str) -> (r: Update)
    ensures
        update_view(r) == update_step(update_view(u), UpdateCall::Update(table@)),
        update_others(u).len() == 0 ==> update_others(r).len() == 0,
{
    u.update(table)
}

/// `Update::set`: adds the trimmed assignment to the `SET` clause unless it is there.
#[verifier::external_body]
pub(crate) fn update_set(u: Update, value: &str) -> (r: Update)
    ensures
        update_view(r) == update_step(update_view(u), UpdateCall::SetValue(value@)),
        update_others(u).len() == 0 ==> update_others(r).len() == 0,
{
    u.set(value)
}

/// `Update::where_and`: adds the trimmed condition, joined by `AND`, unless it is there.
#[verifier::external_body]
pub(crate) fn update_where_and(u: Update, condition: &str) -> (r: Update)
    ensures
        update_view(r) == update_step(update_view(u), UpdateCall::WhereAnd(condition@)),
        update_others(u).len() == 0 ==> update_others(r).len() == 0,
{
    u.where_and(condition)
}

/// `Update::as_string`: the statement as one line of SQL, as `update_text` states it.
/// It is called only on a plain update whose conditions it can write (with only empty
/// conditions the builder panics).
#[verifier::external_body]
pub(crate) fn update_as_string(u: &Update) -> (r: String)
    requires
        update_others(*u).len() == 0,
        wheres_writable(update_wheres(*u)),
    ensures
        r@ == update_text(update_table_text(*u), update_sets(*u), update_wheres(*u)),
{
    u.as_string()
}

// ---------------------------------------------------------------------------
// What an `Insert` holds
// ---------------------------------------------------------------------------

/// The table (with its columns) of an `INSERT INTO` builder; empty when none is set.
pub uninterp spec fn insert_table_text(i: Insert) -> Seq<char>;

/// The rows of the `VALUES` clause of a builder, in order.
pub uninterp spec fn insert_rows(i: Insert) -> Seq<Seq<char>>;

/// The columns of the `RETURNING` clause of a builder, in order.
pub uninterp spec fn insert_returned(i: Insert) -> Seq<Seq<char>>;

/// What a builder holds besides its table, rows and returned columns (raw text,
/// `ON CONFLICT`, `WITH`, a select or default values in place of rows, an `INSERT OR`
/// or `REPLACE` form); empty for a plain `INSERT INTO ... VALUES` with none of them.
pub uninterp spec fn insert_others(i: Insert) -> Seq<Seq<char>>;

/// The text that `as_string` gives for a plain insertion holding these clauses only:
/// the clauses in order, each followed by a space, rows and returned columns joined by
/// `, ` (empty texts left out of them), and the trailing white space removed. Where
/// rows were given and all of them are empty, the builder drops what it wrote before
/// them, the `INSERT INTO` clause.
pub open spec fn insert_text(table: Seq<char>, rows: Seq<Seq<char>>, returned: Seq<Seq<char>>) -> Seq<char> {
    let head = if rows.len() > 0 && non_empty(rows).len() == 0 {
        Seq::empty()
    } else {
        clause(table.len() > 0, "INSERT INTO"@, table)
            + clause(non_empty(rows).len() > 0, "VALUES"@, join_texts(non_empty(rows), ", "@))
    };
    trim_end(head + clause(returned.len() > 0, "RETURNING"@, join_texts(non_empty(returned), ", "@)))
}

/// A call made on an `Insert` builder, with its argument.
pub enum InsertCall {
    InsertInto(Seq<char>),
    Values(Seq<char>),
    Returning(Seq<char>),
}

/// What an `Insert` builder holds, clause by clause.
pub struct InsertState {
    pub table: Seq<char>,
    pub rows: Seq<Seq<char>>,
    pub returned: Seq<Seq<char>>,
}

/// What the builder `i` holds in the clauses that the library sets.
pub open spec fn insert_view(i: Insert) -> InsertState {
    InsertState { table: insert_table_text(i), rows: insert_rows(i), returned: insert_returned(i) }
}

/// What a builder holds after one call: the argument is trimmed; the table replaces
/// the earlier one; a list keeps a text once.
pub open spec fn insert_step(st: InsertState, c: InsertCall) -> InsertState {
    match c {
        InsertCall::InsertInto(t) => InsertState { table: trimmed(t), ..st },
        InsertCall::Values(t) => InsertState { rows: push_unique(st.rows, trimmed(t)), ..st },
        InsertCall::Returning(t) => InsertState { returned: push_unique(st.returned, trimmed(t)), ..st },
    }
}

/// What a new builder holds after the calls, in order.
pub open spec fn insert_state(calls: Seq<InsertCall>) -> InsertState
    decreases calls.len(),
{
    if calls.len() == 0 {
        InsertState { table: seq![], rows: seq![], returned: seq![] }
    } else {
        insert_step(insert_state(calls.drop_last()), calls.last())
    }
}

/// The text that `as_string` gives for a builder holding `st`.
pub open spec fn insert_state_text(st: InsertState) -> Seq<char> {
    insert_text(st.table, st.rows, st.returned)
}

/// `Insert::new()`: a builder that holds nothing.
#[verifier::external_body]
pub(crate) fn insert_new() -> (r: Insert)
    ensures
        insert_table_text(r) == Seq::<char>::empty(),
        insert_rows(r) == Seq::<Seq<char>>::empty(),
        insert_returned(r) == Seq::<Seq<char>>::empty(),
        insert_others(r) == Seq::<Seq<char>>::empty(),
{
    Insert::new()
}

/// `Insert::insert_into`: sets the table to the trimmed text, replacing any earlier.
#[verifier::external_body]
pub(crate) fn insert_into(i: Insert, table: &str) -> (r: Insert)
    ensures
        insert_view(r) == insert_step(insert_view(i), InsertCall::InsertInto(table@)),
        insert_others(i).len() == 0 ==> insert_others(r).len() == 0,
{
    i.insert_into(table)
}

/// `Insert::values`: adds the trimmed row unless it is there.
#[verifier::external_body]
pub(crate) fn insert_values(i: Insert, expression: &str) -> (r: Insert)
    ensures
        insert_view(r) == insert_step(insert_view(i), InsertCall::Values(expression@)),
        insert_others(i).len() == 0 ==> insert_others(r).len() == 0,
{
    i.values(expression)
}

/// `Insert::returning`: adds the trimmed columns to the `RETURNING` clause unless they
/// are there.
#[verifier::external_body]
pub(crate) fn insert_returning(i: Insert, output_name: &str) -> (r: Insert)
    ensures
        insert_view(r) == insert_step(insert_view(i), InsertCall::Returning(output_name@)),
        insert_others(i).len() == 0 ==> insert_others(r).len() == 0,
{
    i.returning(output_name)
}

/// `Insert::as_string`: the statement as one line of SQL, as `insert_text` states it.
/// It is called only on a plain insertion.
#[verifier::external_body]
pub(crate) fn insert_as_string(i: &Insert) -> (r: String)
    requires
        insert_others(*i).len() == 0,
    ensures
        r@ == insert_text(insert_table_text(*i), insert_rows(*i), insert_returned(*i)),
{
    i.as_string()
}

} // verus!
