use vstd::prelude::*;

use super::find::{
    add_content_searches, add_filter, add_payload, add_tags, add_visibilities, add_where, add_where_opt,
    arithmetic_sql, binary_sql, expr_sql, filter_sql, find_memo_query, id_wheres, ident_sql, is_string_atom,
    list_sql, memo_base, memo_columns, memo_order, memo_page, opt_i32, opt_i64, opt_text, placeholders, relation_sql,
    standard_wheres, time_string_sql, unary_sql, Query, SqlPart,
};
use crate::api::v1::gen::direction_name;
use crate::dao::turso::builder::SelectCall;
use crate::dao::turso::SqlValueView;
use crate::model::memo::{FindMemoPayloadView, FindMemoView};
use crate::pb::memos_api_v2::{row_status_name, visibility_name, Visibility};
use crate::cel::{CelAtom, CelExpr};
use crate::dao::turso::placeholders::{
    lemma_count_concat, lemma_count_none, lemma_decimal_count, lemma_no_q, lemma_one_placeholder, lemma_placeholders_count,
    placeholder_count,
};
use crate::text::has_infix;

verus! {

proof fn lemma_literals()
    ensures
        placeholder_count("("@) == 0,
        placeholder_count(")"@) == 0,
        placeholder_count(" "@) == 0,
        placeholder_count("?"@) == 1,
        placeholder_count("NULL"@) == 0,
        placeholder_count(", "@) == 0,
        placeholder_count(" LIKE ?"@) == 1,
{
    reveal_strlit("(");
    reveal_strlit(")");
    reveal_strlit(" ");
    reveal_strlit("?");
    reveal_strlit("NULL");
    reveal_strlit(", ");
    reveal_strlit(" LIKE ?");
    lemma_no_q("("@);
    lemma_no_q(")"@);
    lemma_no_q(" "@);
    lemma_no_q("NULL"@);
    lemma_no_q(", "@);
    lemma_no_q(" LIKE ?"@.drop_last());
    lemma_no_q("?"@.drop_last());
}

proof fn lemma_operators()
    ensures
        placeholder_count("OR"@) == 0,
        placeholder_count("AND"@) == 0,
        placeholder_count("contains"@) == 0,
        forall|op| placeholder_count(#[trigger] relation_sql(op)) == 0,
        forall|op| placeholder_count(#[trigger] unary_sql(op)) == 0,
        forall|op| (#[trigger] arithmetic_sql(op)) matches Some(o) ==> placeholder_count(o) == 0,
{
    reveal_strlit("OR");
    reveal_strlit("AND");
    reveal_strlit("contains");
    reveal_strlit("=");
    reveal_strlit("<>");
    reveal_strlit("<");
    reveal_strlit("<=");
    reveal_strlit(">");
    reveal_strlit(">=");
    reveal_strlit("IN");
    reveal_strlit("NOT ");
    reveal_strlit("-");
    reveal_strlit(" + ");
    reveal_strlit(" - ");
    reveal_strlit(" * ");
    reveal_strlit(" / ");
    lemma_no_q("OR"@);
    lemma_no_q("AND"@);
    lemma_no_q("contains"@);
    lemma_no_q("="@);
    lemma_no_q("<>"@);
    lemma_no_q("<"@);
    lemma_no_q("<="@);
    lemma_no_q(">"@);
    lemma_no_q(">="@);
    lemma_no_q("IN"@);
    lemma_no_q("NOT "@);
    lemma_no_q("-"@);
    lemma_no_q(Seq::<char>::empty());
    lemma_no_q(" + "@);
    lemma_no_q(" - "@);
    lemma_no_q(" * "@);
    lemma_no_q(" / "@);
}

proof fn lemma_ident_count(name: Seq<char>)
    requires
        !name.contains('?'),
    ensures
        placeholder_count(ident_sql(name)) == 0,
{
    reveal_strlit("JSON_EACH.value");
    reveal_strlit("pinned IS TRUE");
    reveal_strlit("JSON_EXTRACT(payload, '$.property.has_link') IS TRUE");
    reveal_strlit("JSON_EXTRACT(payload, '$.property.has_task_list') IS TRUE");
    reveal_strlit("JSON_EXTRACT(payload, '$.property.has_code') IS TRUE");
    reveal_strlit("JSON_EXTRACT(payload, '$.property.has_incomplete_tasks') IS TRUE");
    lemma_no_q("JSON_EACH.value"@);
    lemma_no_q("pinned IS TRUE"@);
    lemma_no_q("JSON_EXTRACT(payload, '$.property.has_link') IS TRUE"@);
    lemma_no_q("JSON_EXTRACT(payload, '$.property.has_task_list') IS TRUE"@);
    lemma_no_q("JSON_EXTRACT(payload, '$.property.has_code') IS TRUE"@);
    lemma_no_q("JSON_EXTRACT(payload, '$.property.has_incomplete_tasks') IS TRUE"@);
    lemma_count_none(name);
}

/// `(a op b)` holds the placeholders of `a` and of `b`, and binds their values.
proof fn lemma_binary_count(a: (Seq<char>, Seq<crate::dao::turso::SqlValueView>), op: Seq<char>, b: (
    Seq<char>,
    Seq<crate::dao::turso::SqlValueView>,
))
    requires
        placeholder_count(op) == 0,
        placeholder_count(a.0) == a.1.len(),
        placeholder_count(b.0) == b.1.len(),
    ensures
        placeholder_count(binary_sql(a, op, b).0) == binary_sql(a, op, b).1.len(),
{
    lemma_literals();
    let s1 = "("@ + a.0;
    let s2 = s1 + " "@;
    let s3 = s2 + op;
    let s4 = s3 + " "@;
    let s5 = s4 + b.0;
    lemma_count_concat("("@, a.0);
    lemma_count_concat(s1, " "@);
    lemma_count_concat(s2, op);
    lemma_count_concat(s3, " "@);
    lemma_count_concat(s4, b.0);
    lemma_count_concat(s5, ")"@);
}

/// A filter expression whose SQL binds one value to each placeholder: its names hold no
/// `?`, and it calls no function but `contains`, unless the call and its arguments
/// bind no value at all.
pub open spec fn binds_one_to_one(e: CelExpr) -> bool
    decreases e,
{
    match e {
        CelExpr::Or(a, b) => binds_one_to_one(*a) && binds_one_to_one(*b),
        CelExpr::And(a, b) => binds_one_to_one(*a) && binds_one_to_one(*b),
        CelExpr::Relation(a, _, b) => binds_one_to_one(*a) && binds_one_to_one(*b),
        CelExpr::Arithmetic(a, _, b) => binds_one_to_one(*a) && binds_one_to_one(*b),
        CelExpr::Unary(_, a) => binds_one_to_one(*a),
        CelExpr::List(items) => all_bind_one_to_one(items@),
        CelExpr::Atom(_) => true,
        CelExpr::Ident(name) => !name@.contains('?'),
        CelExpr::FunctionCall(f, that, args) => {
            &&& binds_one_to_one(*f)
            &&& match that {
                Some(t) => binds_one_to_one(*t),
                None => true,
            }
            &&& all_bind_one_to_one(args@)
            &&& ((expr_sql(*f).0 == "contains"@ && args.len() == 1) || (expr_sql(*f).1.len() == 0
                && list_sql(args@).1.len() == 0))
        },
        CelExpr::Other => true,
    }
}

/// Each expression of the list binds one value to each placeholder.
pub open spec fn all_bind_one_to_one(items: Seq<CelExpr>) -> bool
    decreases items,
{
    if items.len() == 0 {
        true
    } else {
        all_bind_one_to_one(items.drop_last()) && binds_one_to_one(items.last())
    }
}

/// The SQL of a filter expression holds as many placeholders as it has values to bind,
/// so that the values, bound in order, meet the placeholders in order. This holds of
/// every expression whose names hold no `?` and that calls no function but `contains`
/// (or that binds nothing in such a call).
pub proof fn lemma_placeholders_match_values(e: CelExpr)
    requires
        binds_one_to_one(e),
    ensures
        placeholder_count(expr_sql(e).0) == expr_sql(e).1.len(),
    decreases e,
{
    lemma_literals();
    lemma_operators();
    match e {
        CelExpr::Or(a, b) => {
            lemma_placeholders_match_values(*a);
            lemma_placeholders_match_values(*b);
            lemma_binary_count(expr_sql(*a), "OR"@, expr_sql(*b));
        },
        CelExpr::And(a, b) => {
            lemma_placeholders_match_values(*a);
            lemma_placeholders_match_values(*b);
            lemma_binary_count(expr_sql(*a), "AND"@, expr_sql(*b));
        },
        CelExpr::Relation(a, op, b) => {
            lemma_placeholders_match_values(*a);
            lemma_placeholders_match_values(*b);
            let left = expr_sql(*a);
            if has_infix(left.0, "time"@) && is_string_atom(*b) {
                let right = time_string_sql((*b)->Atom_0->String_0@);
                lemma_binary_count(left, relation_sql(op), right);
            } else {
                lemma_binary_count(left, relation_sql(op), expr_sql(*b));
            }
        },
        CelExpr::Arithmetic(a, op, b) => {
            lemma_placeholders_match_values(*a);
            lemma_placeholders_match_values(*b);
            if let Some(o) = arithmetic_sql(op) {
                lemma_binary_count(expr_sql(*a), o, expr_sql(*b));
            }
        },
        CelExpr::Unary(op, a) => {
            lemma_placeholders_match_values(*a);
            let inner = expr_sql(*a);
            lemma_count_concat(unary_sql(op), "("@);
            lemma_count_concat(unary_sql(op) + "("@, inner.0);
            lemma_count_concat(unary_sql(op) + "("@ + inner.0, ")"@);
        },
        CelExpr::List(items) => {
            lemma_list_placeholders_match_values(items@);
            let inner = list_sql(items@);
            lemma_count_concat("("@, inner.0);
            lemma_count_concat("("@ + inner.0, ")"@);
        },
        CelExpr::Atom(a) => {},
        CelExpr::Ident(name) => {
            lemma_ident_count(name@);
        },
        CelExpr::FunctionCall(f, that, args) => {
            lemma_placeholders_match_values(*f);
            lemma_list_placeholders_match_values(args@);
            let func = expr_sql(*f);
            if func.0 == "contains"@ && args.len() == 1 {
                match (that, args@[0]) {
                    (Some(t), CelExpr::Atom(CelAtom::String(arg))) => {
                        lemma_placeholders_match_values(*t);
                        lemma_count_concat(expr_sql(*t).0, " LIKE ?"@);
                    },
                    _ => {},
                }
            } else {
                let inner = list_sql(args@);
                lemma_count_concat(inner.0, "("@);
                lemma_count_concat(inner.0 + "("@, inner.0);
                lemma_count_concat(inner.0 + "("@ + inner.0, ")"@);
            }
        },
        CelExpr::Other => {},
    }
}

/// The SQL of a list of expressions holds as many placeholders as it has values.
pub proof fn lemma_list_placeholders_match_values(items: Seq<CelExpr>)
    requires
        all_bind_one_to_one(items),
    ensures
        placeholder_count(list_sql(items).0) == list_sql(items).1.len(),
    decreases items,
{
    lemma_literals();
    if items.len() > 0 {
        lemma_list_placeholders_match_values(items.drop_last());
        lemma_placeholders_match_values(items.last());
        let init = list_sql(items.drop_last());
        let last = expr_sql(items.last());
        if items.len() > 1 {
            lemma_count_concat(init.0, ", "@);
            lemma_count_concat(init.0 + ", "@, last.0);
        } else {
            assert(items.drop_last().len() == 0);
        }
    }
}

/// The condition that a filter adds to a search binds one value to each of its
/// placeholders, for every filter whose expression binds one to one.
pub proof fn lemma_filter_placeholders_match_values(filter: Option<CelExpr>)
    requires
        filter matches Some(e) ==> binds_one_to_one(e),
    ensures
        placeholder_count(filter_sql(filter).0) == filter_sql(filter).1.len(),
{
    match filter {
        Some(CelExpr::Atom(_)) => {},
        Some(e) => lemma_placeholders_match_values(e),
        None => {},
    }
}

/// The text that a call on a `Select` builder hands it.
pub open spec fn call_text(c: SelectCall) -> Seq<char> {
    match c {
        SelectCall::Select(t) => t,
        SelectCall::From(t) => t,
        SelectCall::LeftJoin(t) => t,
        SelectCall::WhereAnd(t) => t,
        SelectCall::OrderBy(t) => t,
        SelectCall::Limit(t) => t,
        SelectCall::Offset(t) => t,
    }
}

/// How many placeholders the texts handed to a builder hold, all calls together.
pub open spec fn calls_placeholders(calls: Seq<SelectCall>) -> nat
    decreases calls.len(),
{
    if calls.len() == 0 {
        0
    } else {
        calls_placeholders(calls.drop_last()) + placeholder_count(call_text(calls.last()))
    }
}

proof fn lemma_calls_concat(a: Seq<SelectCall>, b: Seq<SelectCall>)
    ensures
        calls_placeholders(a + b) == calls_placeholders(a) + calls_placeholders(b),
    decreases b.len(),
{
    if b.len() > 0 {
        lemma_calls_concat(a, b.drop_last());
        assert((a + b).drop_last() =~= a + b.drop_last());
    } else {
        assert(a + b =~= a);
    }
}

/// A query whose calls hold as many placeholders as it has values.
pub open spec fn query_binds(q: Query) -> bool {
    calls_placeholders(q.0) == q.1.len()
}

proof fn lemma_add_where(q: Query, cond: Seq<char>, params: Seq<SqlValueView>)
    requires
        query_binds(q),
        placeholder_count(cond) == params.len(),
    ensures
        query_binds(add_where(q, cond, params)),
{
    assert(q.0.push(SelectCall::WhereAnd(cond)).drop_last() =~= q.0);
}

proof fn lemma_add_where_opt(q: Query, cond: Seq<char>, v: Option<SqlValueView>)
    requires
        query_binds(q),
        placeholder_count(cond) == 1,
    ensures
        query_binds(add_where_opt(q, cond, v)),
{
    if let Some(x) = v {
        lemma_add_where(q, cond, seq![x]);
    }
}

proof fn lemma_where_literals()
    ensures
        placeholder_count("memo.id = ?"@) == 1,
        placeholder_count("memo.uid = ?"@) == 1,
        placeholder_count("memo.creator_id = ?"@) == 1,
        placeholder_count("memo.row_status = ?"@) == 1,
        placeholder_count("memo.created_ts < ?"@) == 1,
        placeholder_count("memo.created_ts > ?"@) == 1,
        placeholder_count("memo.updated_ts < ?"@) == 1,
        placeholder_count("memo.updated_ts > ?"@) == 1,
        placeholder_count("memo.content LIKE ?"@) == 1,
        placeholder_count("JSON_EACH.value = ?"@) == 1,
        placeholder_count("memo.payload = ?"@) == 1,
        placeholder_count("memo.visibility in ("@) == 0,
        placeholder_count("JSON_EXTRACT(memo.payload, '$.property.has_link') IS TRUE"@) == 0,
        placeholder_count("JSON_EXTRACT(memo.payload, '$.property.has_task_list') IS TRUE"@) == 0,
        placeholder_count("JSON_EXTRACT(memo.payload, '$.property.has_code') IS TRUE"@) == 0,
        placeholder_count("JSON_EXTRACT(memo.payload, '$.property.has_incomplete_tasks') IS TRUE"@) == 0,
{
    reveal_strlit("memo.id = ?");
    reveal_strlit("memo.uid = ?");
    reveal_strlit("memo.creator_id = ?");
    reveal_strlit("memo.row_status = ?");
    reveal_strlit("memo.created_ts < ?");
    reveal_strlit("memo.created_ts > ?");
    reveal_strlit("memo.updated_ts < ?");
    reveal_strlit("memo.updated_ts > ?");
    reveal_strlit("memo.content LIKE ?");
    reveal_strlit("JSON_EACH.value = ?");
    reveal_strlit("memo.payload = ?");
    reveal_strlit("memo.visibility in (");
    reveal_strlit("JSON_EXTRACT(memo.payload, '$.property.has_link') IS TRUE");
    reveal_strlit("JSON_EXTRACT(memo.payload, '$.property.has_task_list') IS TRUE");
    reveal_strlit("JSON_EXTRACT(memo.payload, '$.property.has_code') IS TRUE");
    reveal_strlit("JSON_EXTRACT(memo.payload, '$.property.has_incomplete_tasks') IS TRUE");
    lemma_one_placeholder("memo.id = ?"@);
    lemma_one_placeholder("memo.uid = ?"@);
    lemma_one_placeholder("memo.creator_id = ?"@);
    lemma_one_placeholder("memo.row_status = ?"@);
    lemma_one_placeholder("memo.created_ts < ?"@);
    lemma_one_placeholder("memo.created_ts > ?"@);
    lemma_one_placeholder("memo.updated_ts < ?"@);
    lemma_one_placeholder("memo.updated_ts > ?"@);
    lemma_one_placeholder("memo.content LIKE ?"@);
    lemma_one_placeholder("JSON_EACH.value = ?"@);
    lemma_one_placeholder("memo.payload = ?"@);
    lemma_no_q("memo.visibility in ("@);
    lemma_no_q("JSON_EXTRACT(memo.payload, '$.property.has_link') IS TRUE"@);
    lemma_no_q("JSON_EXTRACT(memo.payload, '$.property.has_task_list') IS TRUE"@);
    lemma_no_q("JSON_EXTRACT(memo.payload, '$.property.has_code') IS TRUE"@);
    lemma_no_q("JSON_EXTRACT(memo.payload, '$.property.has_incomplete_tasks') IS TRUE"@);
}

proof fn lemma_content_searches(q: Query, words: Seq<Seq<char>>)
    requires
        query_binds(q),
    ensures
        query_binds(add_content_searches(q, words)),
    decreases words.len(),
{
    lemma_where_literals();
    if words.len() > 0 {
        lemma_content_searches(q, words.drop_last());
        lemma_add_where(
            add_content_searches(q, words.drop_last()),
            "memo.content LIKE ?"@,
            seq![SqlValueView::Text("%"@ + words.last() + "%"@)],
        );
    }
}

proof fn lemma_tags(q: Query, tags: Seq<Seq<char>>)
    requires
        query_binds(q),
    ensures
        query_binds(add_tags(q, tags)),
    decreases tags.len(),
{
    lemma_where_literals();
    if tags.len() > 0 {
        lemma_tags(q, tags.drop_last());
        lemma_add_where(add_tags(q, tags.drop_last()), "JSON_EACH.value = ?"@, seq![SqlValueView::Text(tags.last())]);
    }
}

proof fn lemma_visibilities(q: Query, vs: Seq<Visibility>)
    requires
        query_binds(q),
    ensures
        query_binds(add_visibilities(q, vs)),
{
    if vs.len() > 0 {
        lemma_where_literals();
        lemma_literals();
        lemma_placeholders_count(vs.len());
        lemma_count_concat("memo.visibility in ("@, placeholders(vs.len()));
        lemma_count_concat("memo.visibility in ("@ + placeholders(vs.len()), ")"@);
        lemma_add_where(
            q,
            "memo.visibility in ("@ + placeholders(vs.len()) + ")"@,
            vs.map_values(|v: Visibility| SqlValueView::Text(visibility_name(v))),
        );
    }
}

proof fn lemma_payload(q: Query, p: Option<FindMemoPayloadView>)
    requires
        query_binds(q),
    ensures
        query_binds(add_payload(q, p)),
{
    lemma_where_literals();
    if let Some(p) = p {
        lemma_add_where_opt(q, "memo.payload = ?"@, opt_text(p.raw));
        let q1 = add_where_opt(q, "memo.payload = ?"@, opt_text(p.raw));
        if let Some(tags) = p.tags {
            lemma_tags(q1, tags);
        }
        let q2 = match p.tags {
            Some(tags) => add_tags(q1, tags),
            None => q1,
        };
        if p.has_link {
            lemma_add_where(q2, "JSON_EXTRACT(memo.payload, '$.property.has_link') IS TRUE"@, seq![]);
        }
        let q3 = if p.has_link {
            add_where(q2, "JSON_EXTRACT(memo.payload, '$.property.has_link') IS TRUE"@, seq![])
        } else {
            q2
        };
        if p.has_task_list {
            lemma_add_where(q3, "JSON_EXTRACT(memo.payload, '$.property.has_task_list') IS TRUE"@, seq![]);
        }
        let q4 = if p.has_task_list {
            add_where(q3, "JSON_EXTRACT(memo.payload, '$.property.has_task_list') IS TRUE"@, seq![])
        } else {
            q3
        };
        if p.has_code {
            lemma_add_where(q4, "JSON_EXTRACT(memo.payload, '$.property.has_code') IS TRUE"@, seq![]);
        }
        let q5 = if p.has_code {
            add_where(q4, "JSON_EXTRACT(memo.payload, '$.property.has_code') IS TRUE"@, seq![])
        } else {
            q4
        };
        if p.has_incomplete_tasks {
            lemma_add_where(q5, "JSON_EXTRACT(memo.payload, '$.property.has_incomplete_tasks') IS TRUE"@, seq![]);
        }
    }
}

proof fn lemma_base(f: FindMemoView)
    ensures
        query_binds(memo_base(f)),
{
    reveal_strlit("memo");
    reveal_strlit("JSON_EACH(memo.payload, '$.tags')");
    reveal_strlit("memo.id AS id");
    reveal_strlit("memo.uid AS uid");
    reveal_strlit("memo.creator_id AS creator_id");
    reveal_strlit("memo.created_ts AS created_ts");
    reveal_strlit("memo.updated_ts AS updated_ts");
    reveal_strlit("memo.row_status AS state");
    reveal_strlit("memo.visibility AS visibility");
    reveal_strlit("memo.pinned AS pinned");
    reveal_strlit("memo.payload AS payload");
    reveal_strlit("memo.content AS content");
    lemma_no_q("memo"@);
    lemma_no_q("JSON_EACH(memo.payload, '$.tags')"@);
    lemma_no_q("memo.id AS id"@);
    lemma_no_q("memo.uid AS uid"@);
    lemma_no_q("memo.creator_id AS creator_id"@);
    lemma_no_q("memo.created_ts AS created_ts"@);
    lemma_no_q("memo.updated_ts AS updated_ts"@);
    lemma_no_q("memo.row_status AS state"@);
    lemma_no_q("memo.visibility AS visibility"@);
    lemma_no_q("memo.pinned AS pinned"@);
    lemma_no_q("memo.payload AS payload"@);
    lemma_no_q("memo.content AS content"@);
    let head = seq![SelectCall::From("memo"@), SelectCall::LeftJoin("JSON_EACH(memo.payload, '$.tags')"@)];
    let cols = memo_columns(f.only_payload, f.exclude_content);
    reveal_with_fuel(calls_placeholders, 11);
    assert(calls_placeholders(head) == 0);
    assert(calls_placeholders(cols) == 0);
    lemma_calls_concat(head, cols);
}

proof fn lemma_order_page(f: FindMemoView)
    ensures
        calls_placeholders(memo_order(f)) == 0,
        calls_placeholders(memo_page(f.page_token)) == 0,
{
    reveal_strlit("pinned DESC");
    reveal_strlit("updated_ts ");
    reveal_strlit("created_ts ");
    reveal_strlit("DIRECTION_UNSPECIFIED");
    reveal_strlit("ASC");
    reveal_strlit("DESC");
    lemma_no_q("pinned DESC"@);
    lemma_no_q("updated_ts "@);
    lemma_no_q("created_ts "@);
    lemma_no_q("DIRECTION_UNSPECIFIED"@);
    lemma_no_q("ASC"@);
    lemma_no_q("DESC"@);
    let column = if f.order_by_updated_ts {
        "updated_ts "@
    } else {
        "created_ts "@
    };
    lemma_count_concat(column, direction_name(f.direction));
    reveal_with_fuel(calls_placeholders, 3);
    if let Some(t) = f.page_token {
        lemma_decimal_count(t.limit + 1);
        lemma_decimal_count(t.offset as int);
    }
}

/// The texts that the query of a search hands its builder, all calls together, hold as
/// many placeholders as the values that the query binds, whenever the SQL of its filter
/// does. This is a law of the calls: the builder keeps a repeated text once, so with two
/// equal searched words or two equal tags the statement holds fewer placeholders than
/// values.
pub proof fn lemma_find_memo_binds(f: FindMemoView, filter: SqlPart)
    requires
        placeholder_count(filter.0) == filter.1.len(),
    ensures
        calls_placeholders(find_memo_query(f, filter).0) == find_memo_query(f, filter).1.len(),
{
    lemma_where_literals();
    lemma_base(f);
    let q0 = memo_base(f);
    lemma_add_where_opt(q0, "memo.id = ?"@, opt_i32(f.id));
    let q1 = add_where_opt(q0, "memo.id = ?"@, opt_i32(f.id));
    lemma_add_where_opt(q1, "memo.uid = ?"@, opt_text(f.uid));
    let q2 = add_where_opt(q1, "memo.uid = ?"@, opt_text(f.uid));
    lemma_add_where_opt(q2, "memo.creator_id = ?"@, opt_i32(f.creator_id));
    let q3 = add_where_opt(q2, "memo.creator_id = ?"@, opt_i32(f.creator_id));
    let st = match f.row_status {
        Some(s) => Some(SqlValueView::Text(row_status_name(s))),
        None => None,
    };
    lemma_add_where_opt(q3, "memo.row_status = ?"@, st);
    let q4 = id_wheres(q0, f);
    lemma_add_where_opt(q4, "memo.created_ts < ?"@, opt_i64(f.created_ts_before));
    let q5 = add_where_opt(q4, "memo.created_ts < ?"@, opt_i64(f.created_ts_before));
    lemma_add_where_opt(q5, "memo.created_ts > ?"@, opt_i64(f.created_ts_after));
    let q6 = add_where_opt(q5, "memo.created_ts > ?"@, opt_i64(f.created_ts_after));
    lemma_add_where_opt(q6, "memo.updated_ts < ?"@, opt_i64(f.updated_ts_before));
    let q7 = add_where_opt(q6, "memo.updated_ts < ?"@, opt_i64(f.updated_ts_before));
    lemma_add_where_opt(q7, "memo.updated_ts > ?"@, opt_i64(f.updated_ts_after));
    let q8 = standard_wheres(q0, f);
    lemma_content_searches(q8, f.content_search);
    let q9 = add_content_searches(q8, f.content_search);
    lemma_visibilities(q9, f.visibility_list);
    let q10 = add_visibilities(q9, f.visibility_list);
    lemma_payload(q10, f.payload_find);
    let q11 = add_payload(q10, f.payload_find);
    if filter.0.len() > 0 {
        lemma_add_where(q11, filter.0, filter.1);
    }
    let q12 = add_filter(q11, filter);
    lemma_order_page(f);
    lemma_calls_concat(q12.0, memo_order(f));
    lemma_calls_concat(q12.0 + memo_order(f), memo_page(f.page_token));
}

/// The texts that the query of a search with a filter whose expression binds one to
/// one hands its builder hold as many placeholders as the values it binds (a law of the
/// calls, as `lemma_find_memo_binds` says).
pub proof fn lemma_find_memo_with_filter_binds(f: FindMemoView, filter: Option<CelExpr>)
    requires
        filter matches Some(e) ==> binds_one_to_one(e),
    ensures
        calls_placeholders(find_memo_query(f, filter_sql(filter)).0) == find_memo_query(f, filter_sql(filter)).1.len(),
{
    lemma_filter_placeholders_match_values(filter);
    lemma_find_memo_binds(f, filter_sql(filter));
}

} // verus!
