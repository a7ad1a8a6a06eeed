use vstd::prelude::*;

use crate::dao::turso::builder::{
    insert_as_string, insert_into, insert_new, insert_returning, insert_state, insert_state_text, insert_step,
    insert_values, insert_view, InsertCall,
};
use crate::dao::turso::placeholders::{lemma_no_q, placeholder_count};
use crate::dao::turso::{push_value, values_view, SqlValue, SqlValueView};
use crate::model::memo::CreateMemo;
use crate::pb::memos_api_v2::visibility_name;

verus! {

broadcast use vstd::string::group_string_axioms;

/// The calls that build the insertion of a memo.
pub open spec fn create_memo_calls() -> Seq<InsertCall> {
    seq![
        InsertCall::InsertInto("memo (creator_id, uid, content, visibility, payload)"@),
        InsertCall::Values("(?, ?, ?, ?, ?)"@),
        InsertCall::Returning("id, uid, creator_id, created_ts, updated_ts, row_status, content, visibility, payload"@),
    ]
}

impl CreateMemo {
    /// The SQL statement that inserts the memo and returns it, and the values of its
    /// placeholders. `payload_json` is the JSON text of `self.payload`.
    pub fn to_criteria(self, payload_json: String) -> (r: (String, Vec<SqlValue>))
        ensures
            r.0@ == insert_state_text(insert_state(create_memo_calls())),
            values_view(r.1@) == seq![
                SqlValueView::Integer(self.creator_id as i64),
                SqlValueView::Text(self.uid@),
                SqlValueView::Text(self.content@),
                SqlValueView::Text(visibility_name(self.visibility)),
                SqlValueView::Text(payload_json@),
            ],
    {
        let ghost me = self;
        let CreateMemo { creator_id, uid, content, visibility, payload: _ } = self;
        let ghost calls = create_memo_calls();
        let mut sql = insert_new();
        assert(insert_view(sql) == insert_state(calls.take(0)));
        sql = insert_into(sql, "memo (creator_id, uid, content, visibility, payload)");
        assert(calls.take(1).drop_last() =~= calls.take(0));
        assert(insert_view(sql) == insert_state(calls.take(1)));
        sql = insert_values(sql, "(?, ?, ?, ?, ?)");
        assert(calls.take(2).drop_last() =~= calls.take(1));
        assert(insert_view(sql) == insert_state(calls.take(2)));
        sql = insert_returning(
            sql,
            "id, uid, creator_id, created_ts, updated_ts, row_status, content, visibility, payload",
        );
        assert(calls.take(3).drop_last() =~= calls.take(2));
        assert(calls.take(3) =~= calls);
        assert(insert_view(sql) == insert_state(calls));
        let mut params: Vec<SqlValue> = Vec::new();
        assert(values_view(params@) =~= Seq::<SqlValueView>::empty());
        push_value(&mut params, SqlValue::Integer(creator_id as i64));
        push_value(&mut params, SqlValue::Text(uid));
        push_value(&mut params, SqlValue::Text(content));
        push_value(&mut params, SqlValue::Text(String::from_str(visibility.as_str_name())));
        push_value(&mut params, SqlValue::Text(payload_json));
        (insert_as_string(&sql), params)
    }
}

/// The text that a call on an `Insert` builder hands it.
pub open spec fn insert_call_text(c: InsertCall) -> Seq<char> {
    match c {
        InsertCall::InsertInto(t) => t,
        InsertCall::Values(t) => t,
        InsertCall::Returning(t) => t,
    }
}

/// How many placeholders the texts handed to an `Insert` builder hold.
pub open spec fn insert_placeholders(calls: Seq<InsertCall>) -> nat
    decreases calls.len(),
{
    if calls.len() == 0 {
        0
    } else {
        insert_placeholders(calls.drop_last()) + placeholder_count(insert_call_text(calls.last()))
    }
}

/// The insertion of a memo hands its builder five placeholders, one for each of the five
/// values that `to_criteria` binds.
pub proof fn lemma_create_memo_binds()
    ensures
        insert_placeholders(create_memo_calls()) == 5,
{
    reveal_strlit("memo (creator_id, uid, content, visibility, payload)");
    reveal_strlit("(?, ?, ?, ?, ?)");
    reveal_strlit("id, uid, creator_id, created_ts, updated_ts, row_status, content, visibility, payload");
    lemma_no_q("memo (creator_id, uid, content, visibility, payload)"@);
    lemma_no_q("id, uid, creator_id, created_ts, updated_ts, row_status, content, visibility, payload"@);
    let v = "(?, ?, ?, ?, ?)"@;
    reveal_with_fuel(placeholder_count, 16);
    assert(placeholder_count(v) == 5);
    reveal_with_fuel(insert_placeholders, 4);
}

} // verus!
