use vstd::prelude::*;

use crate::dao::turso::{values_view, SqlValue, SqlValueView};
use crate::text::push_str;

verus! {

broadcast use vstd::string::group_string_axioms;

/// The query for the tags of the user `creator_id`, each with the username of its
/// creator.
pub fn list_tags_criteria(creator_id: i32) -> (r: (String, Vec<SqlValue>))
    ensures
        r.0@ == "select user.username as creator, tag.name from user, tag where user.id = ? and user.id = tag.creator_id"@,
        values_view(r.1@) == seq![SqlValueView::Integer(creator_id as i64)],
{
    let mut sql = String::new();
    push_str(
        &mut sql,
        "select user.username as creator, tag.name from user, tag where user.id = ? and user.id = tag.creator_id",
    );
    let params = vec![SqlValue::Integer(creator_id as i64)];
    assert(values_view(params@) =~= seq![SqlValueView::Integer(creator_id as i64)]);
    (sql, params)
}

/// The statement that deletes the tag `name` of the user `creator_id`.
pub fn delete_tag_criteria(name: &str, creator_id: i32) -> (r: (String, Vec<SqlValue>))
    ensures
        r.0@ == "delete from tag where name = ? and creator_id = ?"@,
        values_view(r.1@) == seq![SqlValueView::Text(name@), SqlValueView::Integer(creator_id as i64)],
{
    let mut sql = String::new();
    push_str(&mut sql, "delete from tag where name = ? and creator_id = ?");
    let params = vec![SqlValue::Text(name.to_string()), SqlValue::Integer(creator_id as i64)];
    assert(values_view(params@) =~= seq![SqlValueView::Text(name@), SqlValueView::Integer(creator_id as i64)]);
    (sql, params)
}

/// The statement that stores the tag `name` of the user `creator_id`, keeping the one
/// already stored.
pub fn upsert_tag_criteria(name: &str, creator_id: i32) -> (r: (String, Vec<SqlValue>))
    ensures
        r.0@ == "\n            INSERT INTO tag (\n                name, creator_id\n            )\n            VALUES (?, ?)\n            ON CONFLICT(name, creator_id) DO UPDATE \n            SET\n                name = EXCLUDED.name"@,
        values_view(r.1@) == seq![SqlValueView::Text(name@), SqlValueView::Integer(creator_id as i64)],
{
    let mut sql = String::new();
    push_str(
        &mut sql,
        "\n            INSERT INTO tag (\n                name, creator_id\n            )\n            VALUES (?, ?)\n            ON CONFLICT(name, creator_id) DO UPDATE \n            SET\n                name = EXCLUDED.name",
    );
    let params = vec![SqlValue::Text(name.to_string()), SqlValue::Integer(creator_id as i64)];
    assert(values_view(params@) =~= seq![SqlValueView::Text(name@), SqlValueView::Integer(creator_id as i64)]);
    (sql, params)
}

} // verus!
