use vstd::prelude::*;

pub mod binding;
pub mod create;
pub mod find;
pub mod update;

use crate::dao::turso::{values_view, SqlValue, SqlValueView};
use crate::text::push_str;

verus! {

broadcast use vstd::string::group_string_axioms;

/// The statement that deletes the memo `memo_id`, and its values.
pub fn delete_memo_criteria(memo_id: i32) -> (r: (String, Vec<SqlValue>))
    ensures
        r.0@ == "delete from memo where id = ?"@,
        values_view(r.1@) == seq![SqlValueView::Integer(memo_id as i64)],
{
    let mut sql = String::new();
    push_str(&mut sql, "delete from memo where id = ?");
    let params = vec![SqlValue::Integer(memo_id as i64)];
    assert(values_view(params@) =~= seq![SqlValueView::Integer(memo_id as i64)]);
    (sql, params)
}

} // verus!
