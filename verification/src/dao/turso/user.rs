use vstd::prelude::*;

use crate::dao::turso::{values_view, SqlValue, SqlValueView};
use crate::model::gen::user_setting_key_name;
use crate::model::user::UserSetting;
use crate::pb::memos_api_v2::Role;
use crate::text::push_str;

verus! {

broadcast use vstd::string::group_string_axioms;

/// The columns of a user that the queries read.
pub open spec fn user_select() -> Seq<char> {
    "select id, created_ts, updated_ts, row_status, username, role, email, nickname, password_hash, avatar_url, description from user where "@
}

/// The query for the user named `name`, and, when `password_hash` is given, holding
/// that password hash; with the values of its placeholders.
pub fn find_user_criteria(name: &str, password_hash: Option<&str>) -> (r: (String, Vec<SqlValue>))
    ensures
        match password_hash {
            Some(h) => r.0@ == user_select() + "username = ?"@ + " and password_hash = ?"@ && values_view(r.1@)
                == seq![SqlValueView::Text(name@), SqlValueView::Text(h@)],
            None => r.0@ == user_select() + "username = ?"@ && values_view(r.1@) == seq![
                SqlValueView::Text(name@),
            ],
        },
{
    let mut sql = String::new();
    push_str(
        &mut sql,
        "select id, created_ts, updated_ts, row_status, username, role, email, nickname, password_hash, avatar_url, description from user where ",
    );
    push_str(&mut sql, "username = ?");
    match password_hash {
        Some(h) => {
            push_str(&mut sql, " and password_hash = ?");
            let params = vec![SqlValue::Text(name.to_string()), SqlValue::Text(h.to_string())];
            assert(values_view(params@) =~= seq![SqlValueView::Text(name@), SqlValueView::Text(h@)]);
            (sql, params)
        },
        None => {
            let params = vec![SqlValue::Text(name.to_string())];
            assert(values_view(params@) =~= seq![SqlValueView::Text(name@)]);
            (sql, params)
        },
    }
}

/// The query for the user with the id `id`.
pub fn petch_user_criteria(id: i32) -> (r: (String, Vec<SqlValue>))
    ensures
        r.0@ == user_select() + "id = ?"@,
        values_view(r.1@) == seq![SqlValueView::Integer(id as i64)],
{
    let mut sql = String::new();
    push_str(
        &mut sql,
        "select id, created_ts, updated_ts, row_status, username, role, email, nickname, password_hash, avatar_url, description from user where ",
    );
    push_str(&mut sql, "id = ?");
    let params = vec![SqlValue::Integer(id as i64)];
    assert(values_view(params@) =~= seq![SqlValueView::Integer(id as i64)]);
    (sql, params)
}

/// The query for the host of the instance: the user whose role is `HOST`.
pub fn host_user_criteria() -> (r: (String, Vec<SqlValue>))
    ensures
        r.0@ == user_select() + "role = ?"@,
        values_view(r.1@) == seq![SqlValueView::Text("HOST"@)],
{
    let mut sql = String::new();
    push_str(
        &mut sql,
        "select id, created_ts, updated_ts, row_status, username, role, email, nickname, password_hash, avatar_url, description from user where ",
    );
    push_str(&mut sql, "role = ?");
    let params = vec![SqlValue::Text(Role::Host.as_str_name().to_string())];
    assert(values_view(params@) =~= seq![SqlValueView::Text("HOST"@)]);
    (sql, params)
}

/// The query for the settings of the user `user_id`.
pub fn find_user_setting_criteria(user_id: i32) -> (r: (String, Vec<SqlValue>))
    ensures
        r.0@ == "select * from user_setting where user_id = ?"@,
        values_view(r.1@) == seq![SqlValueView::Integer(user_id as i64)],
{
    let mut sql = String::new();
    push_str(&mut sql, "select * from user_setting where user_id = ?");
    let params = vec![SqlValue::Integer(user_id as i64)];
    assert(values_view(params@) =~= seq![SqlValueView::Integer(user_id as i64)]);
    (sql, params)
}

/// The statement that stores one setting of a user, replacing the stored value of the
/// same key.
pub fn upsert_user_setting_sql() -> (r: String)
    ensures
        r@ == "insert into user_setting (user_id, key, value) values (?, ?, ?) on conflict(user_id, key) do update set value = excluded.value"@,
{
    let mut sql = String::new();
    push_str(
        &mut sql,
        "insert into user_setting (user_id, key, value) values (?, ?, ?) on conflict(user_id, key) do update set value = excluded.value",
    );
    sql
}

/// The values that the statement of `upsert_user_setting_sql` stores for `setting`:
/// the user, the name of the key and the value.
pub fn upsert_user_setting_params(setting: &UserSetting) -> (r: Vec<SqlValue>)
    ensures
        values_view(r@) == seq![
            SqlValueView::Integer(setting.user_id as i64),
            SqlValueView::Text(user_setting_key_name(setting.key)),
            SqlValueView::Text(setting.value@),
        ],
{
    let params = vec![
        SqlValue::Integer(setting.user_id as i64),
        SqlValue::Text(setting.key.as_str_name().to_string()),
        SqlValue::Text(setting.value.clone()),
    ];
    assert(values_view(params@) =~= seq![
        SqlValueView::Integer(setting.user_id as i64),
        SqlValueView::Text(user_setting_key_name(setting.key)),
        SqlValueView::Text(setting.value@),
    ]);
    params
}

} // verus!
