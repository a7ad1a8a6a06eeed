use vstd::prelude::*;

use super::memo::find::{lit, placeholders, placeholders_exec};
use super::placeholders::{
    counts_sum, lemma_count_concat, lemma_counts_sum_push, lemma_decimal_count, lemma_join_count, lemma_no_q,
    lemma_one_placeholder,
    lemma_placeholders_count, placeholder_count,
};
use super::{push_value, values_view, SqlValue, SqlValueView};
use crate::model::gen::{resource_storage_type_name, ResourceStorageType};
use crate::model::resource::{FindResource, Resource};
use crate::text::{decimal, join_strings, join_with, push_decimal, push_str};

verus! {

broadcast use vstd::string::group_string_axioms;

/// A column and the value stored into it.
pub type Column = (Seq<char>, SqlValueView);

pub open spec fn push_if(cs: Seq<Column>, cond: bool, c: Column) -> Seq<Column> {
    if cond {
        cs.push(c)
    } else {
        cs
    }
}

/// The stored name of a storage type; empty for an unspecified one.
pub open spec fn storage_type_text(t: ResourceStorageType) -> Seq<char> {
    if t == ResourceStorageType::Unspecified {
        Seq::<char>::empty()
    } else {
        resource_storage_type_name(t)
    }
}

/// The columns that the insertion of a resource sets, in order, with their values:
/// the content and the reference only when there are some, the id and the times only
/// when they are positive, and the memo only when there is one.
pub open spec fn resource_columns(r: Resource) -> Seq<Column> {
    let c0 = seq![
        ("uid"@, SqlValueView::Text(r.uid@)),
        ("filename"@, SqlValueView::Text(r.filename@)),
        ("type"@, SqlValueView::Text(r.type_@)),
        ("size"@, SqlValueView::Integer((r.size as u32) as i64)),
        ("creator_id"@, SqlValueView::Integer(r.creator_id as i64)),
        ("storage_type"@, SqlValueView::Text(storage_type_text(r.storage_type))),
    ];
    let c1 = push_if(c0, r.blob@.len() > 0, ("blob"@, SqlValueView::Blob(r.blob@)));
    let c2 = push_if(c1, r.reference@.len() > 0, ("reference"@, SqlValueView::Text(r.reference@)));
    let c3 = c2.push(("payload"@, SqlValueView::Text(r.payload@)));
    let c4 = push_if(c3, r.id > 0, ("id"@, SqlValueView::Integer(r.id as i64)));
    let c5 = push_if(c4, r.created_ts > 0, ("created_ts"@, SqlValueView::Integer(r.created_ts)));
    let c6 = push_if(c5, r.updated_ts > 0, ("updated_ts"@, SqlValueView::Integer(r.updated_ts)));
    match r.memo_id {
        Some(m) => c6.push(("memo_id"@, SqlValueView::Integer(m as i64))),
        None => c6,
    }
}

/// The statement that inserts a resource with the columns `cols`.
pub open spec fn insert_resource_sql(cols: Seq<Column>) -> Seq<char> {
    "insert into resource ("@ + join_with(cols.map_values(|c: Column| c.0), ", "@) + ") values ("@
        + placeholders(cols.len()) + ") returning id, memo_id, uid, filename, type, size, created_ts, reference"@
}

fn add_column(names: &mut Vec<String>, args: &mut Vec<SqlValue>, name: &str, v: SqlValue, Ghost(cols): Ghost<Seq<Column>>)
    requires
        old(names).deep_view() == cols.map_values(|c: Column| c.0),
        values_view(old(args)@) == cols.map_values(|c: Column| c.1),
    ensures
        final(names).deep_view() == cols.push((name@, v@)).map_values(|c: Column| c.0),
        values_view(final(args)@) == cols.push((name@, v@)).map_values(|c: Column| c.1),
{
    let ghost before = names.deep_view();
    let n = String::from_str(name);
    names.push(n);
    assert(names.deep_view() =~= before.push(name@));
    push_value(args, v);
    assert(names.deep_view() =~= cols.push((name@, v@)).map_values(|c: Column| c.0));
    assert(values_view(args@) =~= cols.push((name@, v@)).map_values(|c: Column| c.1));
}

/// The statement that inserts `resource` and returns it, and the values of its placeholders.
pub fn create_resource_criteria(resource: Resource) -> (r: (String, Vec<SqlValue>))
    ensures
        r.0@ == insert_resource_sql(resource_columns(resource)),
        values_view(r.1@) == resource_columns(resource).map_values(|c: Column| c.1),
{
    let ghost res = resource;
    let Resource {
        id,
        uid,
        creator_id,
        created_ts,
        updated_ts,
        filename,
        blob,
        type_,
        size,
        storage_type,
        reference,
        payload,
        memo_id,
    } = resource;
    let mut names: Vec<String> = Vec::new();
    let mut args: Vec<SqlValue> = Vec::new();
    let ghost mut cols: Seq<Column> = Seq::empty();
    assert(names.deep_view() =~= cols.map_values(|c: Column| c.0));
    assert(values_view(args@) =~= cols.map_values(|c: Column| c.1));
    let storage_type_str = if storage_type != ResourceStorageType::Unspecified {
        String::from_str(storage_type.as_str_name())
    } else {
        String::new()
    };
    add_column(&mut names, &mut args, "uid", SqlValue::Text(uid), Ghost(cols));
    proof { cols = cols.push(("uid"@, SqlValueView::Text(res.uid@))); }
    add_column(&mut names, &mut args, "filename", SqlValue::Text(filename), Ghost(cols));
    proof { cols = cols.push(("filename"@, SqlValueView::Text(res.filename@))); }
    add_column(&mut names, &mut args, "type", SqlValue::Text(type_), Ghost(cols));
    proof { cols = cols.push(("type"@, SqlValueView::Text(res.type_@))); }
    add_column(&mut names, &mut args, "size", SqlValue::Integer((size as u32) as i64), Ghost(cols));
    proof { cols = cols.push(("size"@, SqlValueView::Integer((res.size as u32) as i64))); }
    add_column(&mut names, &mut args, "creator_id", SqlValue::Integer(creator_id as i64), Ghost(cols));
    proof { cols = cols.push(("creator_id"@, SqlValueView::Integer(res.creator_id as i64))); }
    add_column(&mut names, &mut args, "storage_type", SqlValue::Text(storage_type_str), Ghost(cols));
    proof { cols = cols.push(("storage_type"@, SqlValueView::Text(storage_type_text(res.storage_type)))); }
    if blob.len() > 0 {
        add_column(&mut names, &mut args, "blob", SqlValue::Blob(blob), Ghost(cols));
        proof { cols = cols.push(("blob"@, SqlValueView::Blob(res.blob@))); }
    }
    if reference.as_str().unicode_len() > 0 {
        add_column(&mut names, &mut args, "reference", SqlValue::Text(reference), Ghost(cols));
        proof { cols = cols.push(("reference"@, SqlValueView::Text(res.reference@))); }
    }
    add_column(&mut names, &mut args, "payload", SqlValue::Text(payload), Ghost(cols));
    proof { cols = cols.push(("payload"@, SqlValueView::Text(res.payload@))); }
    if id > 0 {
        add_column(&mut names, &mut args, "id", SqlValue::Integer(id as i64), Ghost(cols));
        proof { cols = cols.push(("id"@, SqlValueView::Integer(res.id as i64))); }
    }
    if created_ts > 0 {
        add_column(&mut names, &mut args, "created_ts", SqlValue::Integer(created_ts), Ghost(cols));
        proof { cols = cols.push(("created_ts"@, SqlValueView::Integer(res.created_ts))); }
    }
    if updated_ts > 0 {
        add_column(&mut names, &mut args, "updated_ts", SqlValue::Integer(updated_ts), Ghost(cols));
        proof { cols = cols.push(("updated_ts"@, SqlValueView::Integer(res.updated_ts))); }
    }
    if let Some(m) = memo_id {
        add_column(&mut names, &mut args, "memo_id", SqlValue::Integer(m as i64), Ghost(cols));
        proof { cols = cols.push(("memo_id"@, SqlValueView::Integer(m as i64))); }
    }
    assert(cols =~= resource_columns(res));
    let mut sql = lit("insert into resource (");
    let joined = join_strings(&names, ", ");
    push_str(&mut sql, joined.as_str());
    push_str(&mut sql, ") values (");
    let ph = placeholders_exec(names.len());
    push_str(&mut sql, ph.as_str());
    push_str(&mut sql, ") returning id, memo_id, uid, filename, type, size, created_ts, reference");
    (sql, args)
}

/// Conditions of a search and the values of their placeholders.
pub type Wheres = (Seq<Seq<char>>, Seq<SqlValueView>);

pub open spec fn add_cond(w: Wheres, cond: Seq<char>, v: Option<SqlValueView>) -> Wheres {
    (w.0.push(cond), match v {
        Some(x) => w.1.push(x),
        None => w.1,
    })
}

pub open spec fn add_cond_opt(w: Wheres, cond: Seq<char>, present: bool, v: SqlValueView) -> Wheres {
    if present {
        add_cond(w, cond, Some(v))
    } else {
        w
    }
}

/// The conditions of a search for resources, in order, starting with `1 = 1`.
pub open spec fn resource_wheres(f: FindResource) -> Wheres {
    let w0: Wheres = (seq!["1 = 1"@], Seq::<SqlValueView>::empty());
    let w1 = add_cond_opt(w0, "id = ?"@, f.id is Some, SqlValueView::Integer(f.id->0 as i64));
    let w2 = add_cond_opt(w1, "uid = ?"@, f.uid is Some, SqlValueView::Text(f.uid->0@));
    let w3 = add_cond_opt(w2, "creator_id = ?"@, f.creator_id is Some, SqlValueView::Integer(f.creator_id->0 as i64));
    let w4 = add_cond_opt(w3, "filename = ?"@, f.filename is Some, SqlValueView::Text(f.filename->0@));
    let w5 = add_cond_opt(w4, "memo_id = ?"@, f.memo_id is Some, SqlValueView::Integer(f.memo_id->0 as i64));
    let w6 = add_cond_opt(
        w5,
        "storage_type = ?"@,
        f.storage_type is Some,
        SqlValueView::Text(resource_storage_type_name(f.storage_type->0)),
    );
    if f.has_relate_memo {
        add_cond(w6, "memo_id IS NOT NULL"@, None)
    } else {
        w6
    }
}

/// The query of a search for resources.
pub open spec fn list_resources_sql(f: FindResource) -> Seq<char> {
    let fields = if f.get_blob {
        "id, uid, filename, reference, type, size, created_ts, memo_id, blob as content"@
    } else {
        "id, uid, filename, reference, type, size, created_ts, memo_id"@
    };
    let base = "select "@ + fields + " from resource where "@ + join_with(resource_wheres(f).0, " AND "@);
    match f.limit {
        Some(l) => {
            let limited = base + " LIMIT "@ + decimal(l as int);
            match f.offset {
                Some(o) => limited + " OFFSET "@ + decimal(o as int),
                None => limited,
            }
        },
        None => base,
    }
}

fn add_where_exec(wheres: &mut Vec<String>, args: &mut Vec<SqlValue>, cond: &str, v: SqlValue)
    ensures
        (final(wheres).deep_view(), values_view(final(args)@)) == add_cond(
            (old(wheres).deep_view(), values_view(old(args)@)),
            cond@,
            Some(v@),
        ),
{
    let ghost before = wheres.deep_view();
    wheres.push(String::from_str(cond));
    assert(wheres.deep_view() =~= before.push(cond@));
    push_value(args, v);
}

/// The query of a search for resources and the values of its placeholders.
pub fn list_resources_criteria(find: &FindResource) -> (r: (String, Vec<SqlValue>))
    ensures
        r.0@ == list_resources_sql(*find),
        values_view(r.1@) == resource_wheres(*find).1,
{
    let mut wheres: Vec<String> = Vec::new();
    wheres.push(lit("1 = 1"));
    let mut args: Vec<SqlValue> = Vec::new();
    assert(wheres.deep_view() =~= seq!["1 = 1"@]);
    assert(values_view(args@) =~= Seq::<SqlValueView>::empty());
    if let Some(id) = find.id {
        add_where_exec(&mut wheres, &mut args, "id = ?", SqlValue::Integer(id as i64));
    }
    if let Some(uid) = &find.uid {
        add_where_exec(&mut wheres, &mut args, "uid = ?", SqlValue::Text(uid.clone()));
    }
    if let Some(creator_id) = find.creator_id {
        add_where_exec(&mut wheres, &mut args, "creator_id = ?", SqlValue::Integer(creator_id as i64));
    }
    if let Some(filename) = &find.filename {
        add_where_exec(&mut wheres, &mut args, "filename = ?", SqlValue::Text(filename.clone()));
    }
    if let Some(memo_id) = find.memo_id {
        add_where_exec(&mut wheres, &mut args, "memo_id = ?", SqlValue::Integer(memo_id as i64));
    }
    if let Some(storage_type) = find.storage_type {
        add_where_exec(&mut wheres, &mut args, "storage_type = ?", SqlValue::Text(String::from_str(storage_type.as_str_name())));
    }
    if find.has_relate_memo {
        let ghost before = wheres.deep_view();
        wheres.push(lit("memo_id IS NOT NULL"));
        assert(wheres.deep_view() =~= before.push("memo_id IS NOT NULL"@));
    }
    assert(wheres.deep_view() == resource_wheres(*find).0);
    let mut sql = lit("select ");
    if find.get_blob {
        push_str(&mut sql, "id, uid, filename, reference, type, size, created_ts, memo_id, blob as content");
    } else {
        push_str(&mut sql, "id, uid, filename, reference, type, size, created_ts, memo_id");
    }
    push_str(&mut sql, " from resource where ");
    let joined = join_strings(&wheres, " AND ");
    push_str(&mut sql, joined.as_str());
    if let Some(limit) = find.limit {
        push_str(&mut sql, " LIMIT ");
        push_decimal(&mut sql, limit as i64);
        if let Some(offset) = find.offset {
            push_str(&mut sql, " OFFSET ");
            push_decimal(&mut sql, offset as i64);
        }
    }
    (sql, args)
}

/// A statement and the values of its placeholders, as text and values.
pub open spec fn statement_view(s: (String, Vec<SqlValue>)) -> (Seq<char>, Seq<SqlValueView>) {
    (s.0@, values_view(s.1@))
}

/// The statement that attaches the resource `res_id` to the memo `memo_id`.
pub open spec fn attach_statement(memo_id: i32, res_id: i32) -> (Seq<char>, Seq<SqlValueView>) {
    (
        "update resource set memo_id = ? where id = ?"@,
        seq![SqlValueView::Integer(memo_id as i64), SqlValueView::Integer(res_id as i64)],
    )
}

/// The statement that deletes the resource `res_id` of the memo `memo_id`.
pub open spec fn detach_statement(memo_id: i32, res_id: i32) -> (Seq<char>, Seq<SqlValueView>) {
    (
        "delete from resource where memo_id = ? and id = ?"@,
        seq![SqlValueView::Integer(memo_id as i64), SqlValueView::Integer(res_id as i64)],
    )
}

/// The statements, run in one transaction, that attach the resources `add` to the memo
/// `memo_id` and delete its resources `del`: first the attachments, then the deletions,
/// each in the order of its list. No statement at all when both lists are empty.
pub fn set_resources_memo_statements(memo_id: i32, add: &Vec<i32>, del: &Vec<i32>) -> (r: Vec<
    (String, Vec<SqlValue>),
>)
    ensures
        r.len() == add.len() + del.len(),
        forall|i: int| 0 <= i < add.len() ==> statement_view(#[trigger] r@[i]) == attach_statement(memo_id, add@[i]),
        forall|i: int|
            0 <= i < del.len() ==> statement_view(#[trigger] r@[add.len() + i]) == detach_statement(
                memo_id,
                del@[i],
            ),
{
    let mut r: Vec<(String, Vec<SqlValue>)> = Vec::new();
    for i in 0..add.len()
        invariant
            r.len() == i,
            forall|j: int| 0 <= j < i ==> statement_view(#[trigger] r@[j]) == attach_statement(memo_id, add@[j]),
    {
        let params = vec![SqlValue::Integer(memo_id as i64), SqlValue::Integer(add[i] as i64)];
        assert(values_view(params@) =~= attach_statement(memo_id, add@[i as int]).1);
        r.push(("update resource set memo_id = ? where id = ?".to_string(), params));
    }
    let n = add.len();
    for i in 0..del.len()
        invariant
            n == add.len(),
            r.len() == n + i,
            forall|j: int| 0 <= j < n ==> statement_view(#[trigger] r@[j]) == attach_statement(memo_id, add@[j]),
            forall|j: int|
                0 <= j < i ==> statement_view(#[trigger] r@[n + j]) == detach_statement(memo_id, del@[j]),
    {
        let params = vec![SqlValue::Integer(memo_id as i64), SqlValue::Integer(del[i] as i64)];
        assert(values_view(params@) =~= detach_statement(memo_id, del@[i as int]).1);
        r.push(("delete from resource where memo_id = ? and id = ?".to_string(), params));
        assert(r@[n + i as int] == r@.last());
    }
    r
}

/// The names of columns.
pub open spec fn column_names(cs: Seq<Column>) -> Seq<Seq<char>> {
    cs.map_values(|c: Column| c.0)
}

proof fn lemma_names_push(cs: Seq<Column>, c: Column)
    ensures
        column_names(cs.push(c)) == column_names(cs).push(c.0),
{
    assert(column_names(cs.push(c)) =~= column_names(cs).push(c.0));
}

proof fn lemma_push_if_count(cs: Seq<Column>, cond: bool, c: Column)
    ensures
        counts_sum(column_names(push_if(cs, cond, c))) == counts_sum(column_names(cs)) + if cond {
            placeholder_count(c.0)
        } else {
            0
        },
        push_if(cs, cond, c).len() == cs.len() + if cond { 1int } else { 0int },
{
    if cond {
        lemma_names_push(cs, c);
        lemma_counts_sum_push(column_names(cs), c.0);
    }
}

proof fn lemma_column_literals()
    ensures
        placeholder_count("uid"@) == 0,
        placeholder_count("filename"@) == 0,
        placeholder_count("type"@) == 0,
        placeholder_count("size"@) == 0,
        placeholder_count("creator_id"@) == 0,
        placeholder_count("storage_type"@) == 0,
        placeholder_count("blob"@) == 0,
        placeholder_count("reference"@) == 0,
        placeholder_count("payload"@) == 0,
        placeholder_count("id"@) == 0,
        placeholder_count("created_ts"@) == 0,
        placeholder_count("updated_ts"@) == 0,
        placeholder_count("memo_id"@) == 0,
{
    reveal_strlit("uid");
    reveal_strlit("filename");
    reveal_strlit("type");
    reveal_strlit("size");
    reveal_strlit("creator_id");
    reveal_strlit("storage_type");
    reveal_strlit("blob");
    reveal_strlit("reference");
    reveal_strlit("payload");
    reveal_strlit("id");
    reveal_strlit("created_ts");
    reveal_strlit("updated_ts");
    reveal_strlit("memo_id");
    lemma_no_q("uid"@);
    lemma_no_q("filename"@);
    lemma_no_q("type"@);
    lemma_no_q("size"@);
    lemma_no_q("creator_id"@);
    lemma_no_q("storage_type"@);
    lemma_no_q("blob"@);
    lemma_no_q("reference"@);
    lemma_no_q("payload"@);
    lemma_no_q("id"@);
    lemma_no_q("created_ts"@);
    lemma_no_q("updated_ts"@);
    lemma_no_q("memo_id"@);
}

/// The statement that stores a resource holds one placeholder for each value that it
/// binds, whichever columns the resource fills.
pub proof fn lemma_insert_resource_binds(r: Resource)
    ensures
        placeholder_count(insert_resource_sql(resource_columns(r))) == resource_columns(r).len(),
{
    lemma_column_literals();
    let c0 = seq![
        ("uid"@, SqlValueView::Text(r.uid@)),
        ("filename"@, SqlValueView::Text(r.filename@)),
        ("type"@, SqlValueView::Text(r.type_@)),
        ("size"@, SqlValueView::Integer((r.size as u32) as i64)),
        ("creator_id"@, SqlValueView::Integer(r.creator_id as i64)),
        ("storage_type"@, SqlValueView::Text(storage_type_text(r.storage_type))),
    ];
    assert(column_names(c0) =~= seq!["uid"@, "filename"@, "type"@, "size"@, "creator_id"@, "storage_type"@]);
    reveal_with_fuel(counts_sum, 7);
    assert(counts_sum(column_names(c0)) == 0);
    let c1 = push_if(c0, r.blob@.len() > 0, ("blob"@, SqlValueView::Blob(r.blob@)));
    lemma_push_if_count(c0, r.blob@.len() > 0, ("blob"@, SqlValueView::Blob(r.blob@)));
    let c2 = push_if(c1, r.reference@.len() > 0, ("reference"@, SqlValueView::Text(r.reference@)));
    lemma_push_if_count(c1, r.reference@.len() > 0, ("reference"@, SqlValueView::Text(r.reference@)));
    let c3 = c2.push(("payload"@, SqlValueView::Text(r.payload@)));
    lemma_push_if_count(c2, true, ("payload"@, SqlValueView::Text(r.payload@)));
    let c4 = push_if(c3, r.id > 0, ("id"@, SqlValueView::Integer(r.id as i64)));
    lemma_push_if_count(c3, r.id > 0, ("id"@, SqlValueView::Integer(r.id as i64)));
    let c5 = push_if(c4, r.created_ts > 0, ("created_ts"@, SqlValueView::Integer(r.created_ts)));
    lemma_push_if_count(c4, r.created_ts > 0, ("created_ts"@, SqlValueView::Integer(r.created_ts)));
    let c6 = push_if(c5, r.updated_ts > 0, ("updated_ts"@, SqlValueView::Integer(r.updated_ts)));
    lemma_push_if_count(c5, r.updated_ts > 0, ("updated_ts"@, SqlValueView::Integer(r.updated_ts)));
    match r.memo_id {
        Some(m) => lemma_push_if_count(c6, true, ("memo_id"@, SqlValueView::Integer(m as i64))),
        None => {},
    }
    let cols = resource_columns(r);
    assert(counts_sum(column_names(cols)) == 0);
    reveal_strlit(", ");
    reveal_strlit("insert into resource (");
    reveal_strlit(") values (");
    reveal_strlit(") returning id, memo_id, uid, filename, type, size, created_ts, reference");
    lemma_no_q(", "@);
    lemma_no_q("insert into resource ("@);
    lemma_no_q(") values ("@);
    lemma_no_q(") returning id, memo_id, uid, filename, type, size, created_ts, reference"@);
    lemma_join_count(column_names(cols), ", "@);
    lemma_placeholders_count(cols.len());
    let j = join_with(cols.map_values(|c: Column| c.0), ", "@);
    assert(cols.map_values(|c: Column| c.0) == column_names(cols));
    lemma_count_concat("insert into resource ("@, j);
    lemma_count_concat("insert into resource ("@ + j, ") values ("@);
    lemma_count_concat("insert into resource ("@ + j + ") values ("@, placeholders(cols.len()));
    lemma_count_concat(
        "insert into resource ("@ + j + ") values ("@ + placeholders(cols.len()),
        ") returning id, memo_id, uid, filename, type, size, created_ts, reference"@,
    );
}

proof fn lemma_add_cond_count(w: Wheres, cond: Seq<char>, v: Option<SqlValueView>)
    requires
        counts_sum(w.0) == w.1.len(),
        placeholder_count(cond) == if v is Some { 1nat } else { 0nat },
    ensures
        counts_sum(add_cond(w, cond, v).0) == add_cond(w, cond, v).1.len(),
{
    lemma_counts_sum_push(w.0, cond);
}

/// The query of a search for resources holds one placeholder for each value that it
/// binds, whichever conditions the search sets.
pub proof fn lemma_list_resources_binds(f: FindResource)
    ensures
        placeholder_count(list_resources_sql(f)) == resource_wheres(f).1.len(),
{
    reveal_strlit("1 = 1");
    reveal_strlit("id = ?");
    reveal_strlit("uid = ?");
    reveal_strlit("creator_id = ?");
    reveal_strlit("filename = ?");
    reveal_strlit("memo_id = ?");
    reveal_strlit("storage_type = ?");
    reveal_strlit("memo_id IS NOT NULL");
    lemma_no_q("1 = 1"@);
    lemma_one_placeholder("id = ?"@);
    lemma_one_placeholder("uid = ?"@);
    lemma_one_placeholder("creator_id = ?"@);
    lemma_one_placeholder("filename = ?"@);
    lemma_one_placeholder("memo_id = ?"@);
    lemma_one_placeholder("storage_type = ?"@);
    lemma_no_q("memo_id IS NOT NULL"@);
    let w0: Wheres = (seq!["1 = 1"@], Seq::<SqlValueView>::empty());
    reveal_with_fuel(counts_sum, 2);
    assert(counts_sum(w0.0) == 0);
    let w1 = add_cond_opt(w0, "id = ?"@, f.id is Some, SqlValueView::Integer(f.id->0 as i64));
    if f.id is Some {
        lemma_add_cond_count(w0, "id = ?"@, Some(SqlValueView::Integer(f.id->0 as i64)));
    }
    let w2 = add_cond_opt(w1, "uid = ?"@, f.uid is Some, SqlValueView::Text(f.uid->0@));
    if f.uid is Some {
        lemma_add_cond_count(w1, "uid = ?"@, Some(SqlValueView::Text(f.uid->0@)));
    }
    let w3 = add_cond_opt(w2, "creator_id = ?"@, f.creator_id is Some, SqlValueView::Integer(f.creator_id->0 as i64));
    if f.creator_id is Some {
        lemma_add_cond_count(w2, "creator_id = ?"@, Some(SqlValueView::Integer(f.creator_id->0 as i64)));
    }
    let w4 = add_cond_opt(w3, "filename = ?"@, f.filename is Some, SqlValueView::Text(f.filename->0@));
    if f.filename is Some {
        lemma_add_cond_count(w3, "filename = ?"@, Some(SqlValueView::Text(f.filename->0@)));
    }
    let w5 = add_cond_opt(w4, "memo_id = ?"@, f.memo_id is Some, SqlValueView::Integer(f.memo_id->0 as i64));
    if f.memo_id is Some {
        lemma_add_cond_count(w4, "memo_id = ?"@, Some(SqlValueView::Integer(f.memo_id->0 as i64)));
    }
    let sv = SqlValueView::Text(resource_storage_type_name(f.storage_type->0));
    let w6 = add_cond_opt(w5, "storage_type = ?"@, f.storage_type is Some, sv);
    if f.storage_type is Some {
        lemma_add_cond_count(w5, "storage_type = ?"@, Some(sv));
    }
    if f.has_relate_memo {
        lemma_add_cond_count(w6, "memo_id IS NOT NULL"@, None);
    }
    let w = resource_wheres(f);
    assert(counts_sum(w.0) == w.1.len());
    reveal_strlit(" AND ");
    reveal_strlit("select ");
    reveal_strlit(" from resource where ");
    reveal_strlit("id, uid, filename, reference, type, size, created_ts, memo_id, blob as content");
    reveal_strlit("id, uid, filename, reference, type, size, created_ts, memo_id");
    reveal_strlit(" LIMIT ");
    reveal_strlit(" OFFSET ");
    lemma_no_q(" AND "@);
    lemma_no_q("select "@);
    lemma_no_q(" from resource where "@);
    lemma_no_q("id, uid, filename, reference, type, size, created_ts, memo_id, blob as content"@);
    lemma_no_q("id, uid, filename, reference, type, size, created_ts, memo_id"@);
    lemma_no_q(" LIMIT "@);
    lemma_no_q(" OFFSET "@);
    lemma_join_count(w.0, " AND "@);
    let fields = if f.get_blob {
        "id, uid, filename, reference, type, size, created_ts, memo_id, blob as content"@
    } else {
        "id, uid, filename, reference, type, size, created_ts, memo_id"@
    };
    let joined = join_with(w.0, " AND "@);
    lemma_count_concat("select "@, fields);
    lemma_count_concat("select "@ + fields, " from resource where "@);
    lemma_count_concat("select "@ + fields + " from resource where "@, joined);
    let base = "select "@ + fields + " from resource where "@ + joined;
    if let Some(l) = f.limit {
        lemma_decimal_count(l as int);
        lemma_count_concat(base, " LIMIT "@);
        lemma_count_concat(base + " LIMIT "@, decimal(l as int));
        if let Some(o) = f.offset {
            let limited = base + " LIMIT "@ + decimal(l as int);
            lemma_decimal_count(o as int);
            lemma_count_concat(limited, " OFFSET "@);
            lemma_count_concat(limited + " OFFSET "@, decimal(o as int));
        }
    }
}

/// The query for the resources attached to the memo `memo_id`, run once for each memo
/// whose resources are related.
pub fn resources_of_memo_criteria(memo_id: i32) -> (r: (String, Vec<SqlValue>))
    ensures
        r.0@ == "select id, uid, filename, reference, type, size, created_ts, memo_id from resource where memo_id = ?"@,
        values_view(r.1@) == seq![SqlValueView::Integer(memo_id as i64)],
{
    let mut sql = String::new();
    push_str(
        &mut sql,
        "select id, uid, filename, reference, type, size, created_ts, memo_id from resource where memo_id = ?",
    );
    let params = vec![SqlValue::Integer(memo_id as i64)];
    assert(values_view(params@) =~= seq![SqlValueView::Integer(memo_id as i64)]);
    (sql, params)
}

/// The statement that deletes the resource `id` of the user `creator_id`.
pub fn delete_resource_criteria(id: i32, creator_id: i32) -> (r: (String, Vec<SqlValue>))
    ensures
        r.0@ == "delete from resource where id = ? and creator_id = ?"@,
        values_view(r.1@) == seq![SqlValueView::Integer(id as i64), SqlValueView::Integer(creator_id as i64)],
{
    let mut sql = String::new();
    push_str(&mut sql, "delete from resource where id = ? and creator_id = ?");
    let params = vec![SqlValue::Integer(id as i64), SqlValue::Integer(creator_id as i64)];
    assert(values_view(params@) =~= seq![SqlValueView::Integer(id as i64), SqlValueView::Integer(creator_id as i64)]);
    (sql, params)
}

/// The query for the resource `id`.
pub fn get_resource_criteria(id: i32) -> (r: (String, Vec<SqlValue>))
    ensures
        r.0@ == "select * from resource where id = ?"@,
        values_view(r.1@) == seq![SqlValueView::Integer(id as i64)],
{
    let mut sql = String::new();
    push_str(&mut sql, "select * from resource where id = ?");
    let params = vec![SqlValue::Integer(id as i64)];
    assert(values_view(params@) =~= seq![SqlValueView::Integer(id as i64)]);
    (sql, params)
}

} // verus!
