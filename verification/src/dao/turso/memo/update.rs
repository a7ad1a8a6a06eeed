use vstd::prelude::*;

use crate::api::memo::UpdateMemoView;
use crate::dao::turso::builder::{
    update_as_string, update_new, update_others, update_set, update_state, update_state_text, update_step,
    update_table, update_view, update_where_and, update_wheres, wheres_writable, UpdateCall,
};
use crate::dao::turso::builder::{is_whitespace, trimmed};
use crate::dao::turso::memo::find::lemma_trimmed_not_blank;
use crate::dao::turso::placeholders::{lemma_no_q, lemma_one_placeholder, placeholder_count};
use crate::dao::turso::{push_value, values_view, SqlValue, SqlValueView};
use crate::model::memo::UpdateMemo;
use crate::pb::memos_api_v2::{row_status_name, visibility_name};

verus! {

broadcast use vstd::string::group_string_axioms;

/// Calls and parameters of an update being built.
pub type UpdateQuery = (Seq<UpdateCall>, Seq<SqlValueView>);

/// Adds an assignment with its parameter.
pub open spec fn add_set(q: UpdateQuery, assignment: Seq<char>, v: SqlValueView) -> UpdateQuery {
    (q.0.push(UpdateCall::SetValue(assignment)), q.1.push(v))
}

/// The calls that build the update of a memo and its parameters. `payload` is the JSON
/// text of the new payload, when the update sets one.
pub open spec fn update_memo_query(u: UpdateMemoView, payload: Option<Seq<char>>) -> UpdateQuery {
    let q0: UpdateQuery = (
        seq![UpdateCall::Update("memo"@), UpdateCall::WhereAnd("id = ?"@)],
        seq![SqlValueView::Integer(u.id as i64)],
    );
    let q1 = match u.visibility {
        Some(v) => add_set(q0, "visibility = ?"@, SqlValueView::Text(visibility_name(v))),
        None => q0,
    };
    let q2 = match u.row_status {
        Some(s) => add_set(q1, "row_status = ?"@, SqlValueView::Text(row_status_name(s))),
        None => q1,
    };
    let q3 = match u.content {
        Some(c) => add_set(q2, "content = ?"@, SqlValueView::Text(c)),
        None => q2,
    };
    let q4 = match payload {
        Some(p) => add_set(q3, "payload = ?"@, SqlValueView::Text(p)),
        None => q3,
    };
    match u.pinned {
        Some(p) => add_set(q4, "pinned = ?"@, SqlValueView::Integer(if p { 1 } else { 0 })),
        None => q4,
    }
}

fn set_with(
    u: sql_query_builder::Update,
    ps: &mut Vec<SqlValue>,
    assignment: &str,
    v: SqlValue,
    Ghost(c): Ghost<Seq<UpdateCall>>,
) -> (r: sql_query_builder::Update)
    requires
        update_view(u) == update_state(c),
        update_others(u).len() == 0,
        wheres_writable(update_wheres(u)),
    ensures
        update_view(r) == update_state(c.push(UpdateCall::SetValue(assignment@))),
        update_others(r).len() == 0,
        wheres_writable(update_wheres(r)),
        values_view(final(ps)@) == values_view(old(ps)@).push(v@),
{
    push_value(ps, v);
    assert(c.push(UpdateCall::SetValue(assignment@)).drop_last() =~= c);
    update_set(u, assignment)
}

impl UpdateMemo {
    /// The SQL statement that applies the update and the values of its placeholders;
    /// an empty statement without parameters when the update sets nothing.
    /// `payload_json` is the JSON text of `self.payload`, when there is one.
    pub fn to_criteria(self, payload_json: Option<String>) -> (r: (String, Vec<SqlValue>))
        requires
            payload_json is Some <==> self.payload is Some,
        ensures
            ({
                let q = update_memo_query(self@, payload_json.deep_view());
                if q.1.len() == 1 {
                    r.0@.len() == 0 && r.1@.len() == 0
                } else {
                    r.0@ == update_state_text(update_state(q.0)) && values_view(r.1@) == q.1
                }
            }),
    {
        let ghost uv = self@;
        let ghost pj = payload_json.deep_view();
        let mut params: Vec<SqlValue> = Vec::new();
        let mut sql = update_new();
        let ghost c0 = Seq::<UpdateCall>::empty();
        assert(update_view(sql) == update_state(c0));
        sql = update_table(sql, "memo");
        let ghost c1 = c0.push(UpdateCall::Update("memo"@));
        assert(c1.drop_last() =~= c0);
        assert(update_state(c1) == update_step(update_state(c0), UpdateCall::Update("memo"@)));
        assert(update_view(sql) == update_state(c1));
        sql = update_where_and(sql, "id = ?");
        let ghost mut c = c1.push(UpdateCall::WhereAnd("id = ?"@));
        assert(c.drop_last() =~= c1);
        assert(update_state(c) == update_step(update_state(c1), UpdateCall::WhereAnd("id = ?"@)));
        proof {
            reveal_strlit("id = ?");
            assert(!is_whitespace("id = ?"@[0]));
            lemma_trimmed_not_blank("id = ?"@);
            assert(update_wheres(sql)[0] == trimmed("id = ?"@));
        }
        assert(update_view(sql) == update_state(c));
        push_value(&mut params, SqlValue::Integer(self.id as i64));
        assert(values_view(params@) =~= seq![SqlValueView::Integer(uv.id as i64)]);
        if let Some(visibility) = self.visibility {
            sql = set_with(sql, &mut params, "visibility = ?", SqlValue::Text(String::from_str(visibility.as_str_name())), Ghost(c));
            proof { c = c.push(UpdateCall::SetValue("visibility = ?"@)); }
        }
        if let Some(state) = self.row_status {
            sql = set_with(sql, &mut params, "row_status = ?", SqlValue::Text(String::from_str(state.as_str_name())), Ghost(c));
            proof { c = c.push(UpdateCall::SetValue("row_status = ?"@)); }
        }
        if let Some(content) = self.content {
            sql = set_with(sql, &mut params, "content = ?", SqlValue::Text(content), Ghost(c));
            proof { c = c.push(UpdateCall::SetValue("content = ?"@)); }
        }
        if let Some(payload) = payload_json {
            sql = set_with(sql, &mut params, "payload = ?", SqlValue::Text(payload), Ghost(c));
            proof { c = c.push(UpdateCall::SetValue("payload = ?"@)); }
        }
        if let Some(pinned) = self.pinned {
            sql = set_with(sql, &mut params, "pinned = ?", SqlValue::Integer(if pinned { 1 } else { 0 }), Ghost(c));
            proof { c = c.push(UpdateCall::SetValue("pinned = ?"@)); }
        }
        assert(c == update_memo_query(uv, pj).0);
        if params.len() == 1 {
            (String::new(), Vec::new())
        } else {
            (update_as_string(&sql), params)
        }
    }
}

/// The text that a call on an `Update` builder hands it.
pub open spec fn update_call_text(c: UpdateCall) -> Seq<char> {
    match c {
        UpdateCall::Update(t) => t,
        UpdateCall::SetValue(t) => t,
        UpdateCall::WhereAnd(t) => t,
    }
}

/// How many placeholders the texts handed to an `Update` builder hold.
pub open spec fn update_placeholders(calls: Seq<UpdateCall>) -> nat
    decreases calls.len(),
{
    if calls.len() == 0 {
        0
    } else {
        update_placeholders(calls.drop_last()) + placeholder_count(update_call_text(calls.last()))
    }
}

proof fn lemma_add_set(q: UpdateQuery, assignment: Seq<char>, v: SqlValueView)
    requires
        update_placeholders(q.0) == q.1.len(),
        placeholder_count(assignment) == 1,
    ensures
        update_placeholders(add_set(q, assignment, v).0) == add_set(q, assignment, v).1.len(),
{
    assert(q.0.push(UpdateCall::SetValue(assignment)).drop_last() =~= q.0);
}

/// The calls that build the update of a memo hand it as many placeholders as the values
/// that the update binds, whichever fields it sets.
pub proof fn lemma_update_memo_binds(u: UpdateMemoView, payload: Option<Seq<char>>)
    ensures
        update_placeholders(update_memo_query(u, payload).0) == update_memo_query(u, payload).1.len(),
{
    reveal_strlit("memo");
    reveal_strlit("id = ?");
    reveal_strlit("visibility = ?");
    reveal_strlit("row_status = ?");
    reveal_strlit("content = ?");
    reveal_strlit("payload = ?");
    reveal_strlit("pinned = ?");
    lemma_no_q("memo"@);
    lemma_one_placeholder("id = ?"@);
    lemma_one_placeholder("visibility = ?"@);
    lemma_one_placeholder("row_status = ?"@);
    lemma_one_placeholder("content = ?"@);
    lemma_one_placeholder("payload = ?"@);
    lemma_one_placeholder("pinned = ?"@);
    let q0: UpdateQuery = (
        seq![UpdateCall::Update("memo"@), UpdateCall::WhereAnd("id = ?"@)],
        seq![SqlValueView::Integer(u.id as i64)],
    );
    reveal_with_fuel(update_placeholders, 3);
    assert(update_placeholders(q0.0) == 1);
    let q1 = match u.visibility {
        Some(v) => add_set(q0, "visibility = ?"@, SqlValueView::Text(visibility_name(v))),
        None => q0,
    };
    if let Some(v) = u.visibility {
        lemma_add_set(q0, "visibility = ?"@, SqlValueView::Text(visibility_name(v)));
    }
    let q2 = match u.row_status {
        Some(s) => add_set(q1, "row_status = ?"@, SqlValueView::Text(row_status_name(s))),
        None => q1,
    };
    if let Some(st) = u.row_status {
        lemma_add_set(q1, "row_status = ?"@, SqlValueView::Text(row_status_name(st)));
    }
    let q3 = match u.content {
        Some(c) => add_set(q2, "content = ?"@, SqlValueView::Text(c)),
        None => q2,
    };
    if let Some(c) = u.content {
        lemma_add_set(q2, "content = ?"@, SqlValueView::Text(c));
    }
    let q4 = match payload {
        Some(p) => add_set(q3, "payload = ?"@, SqlValueView::Text(p)),
        None => q3,
    };
    if let Some(p) = payload {
        lemma_add_set(q3, "payload = ?"@, SqlValueView::Text(p));
    }
    if let Some(p) = u.pinned {
        lemma_add_set(q4, "pinned = ?"@, SqlValueView::Integer(if p { 1 } else { 0 }));
    }
}

} // verus!
