use vstd::prelude::*;

use crate::ctrl::store::SessionTable;
use crate::dao::turso::{values_view, SqlValue, SqlValueView};
use crate::model::session::Session;
use crate::text::push_str;

verus! {

broadcast use vstd::string::group_string_axioms;

/// The table of the sessions.
pub const TABLE_NAME: &'static str = "sessions";

/// The statement that stores `session`, replacing the one with its id, and its values.
pub fn create_session_criteria(session: Session) -> (r: (String, Vec<SqlValue>))
    ensures
        r.0@ == "\n            insert into "@ + TABLE_NAME@
            + "\n              (id, data, expiry_date) values (?, ?, ?)\n            on conflict(id) do update set\n              data = excluded.data,\n              expiry_date = excluded.expiry_date\n            "@,
        values_view(r.1@) == seq![
            SqlValueView::Text(session.id@),
            SqlValueView::Blob(session.data@),
            SqlValueView::Integer(session.expiry_date),
        ],
{
    let ghost s = session;
    let sql = SessionTable::new().save_sql();
    let Session { id, data, expiry_date } = session;
    let params = vec![SqlValue::Text(id), SqlValue::Blob(data), SqlValue::Integer(expiry_date)];
    assert(values_view(params@) =~= seq![
        SqlValueView::Text(s.id@),
        SqlValueView::Blob(s.data@),
        SqlValueView::Integer(s.expiry_date),
    ]);
    (sql, params)
}

/// The query for the session `session_id` when it expires after `now` (seconds since
/// the epoch), and its values.
pub fn get_session_criteria(session_id: String, now: i64) -> (r: (String, Vec<SqlValue>))
    ensures
        r.0@ == "\n            select id, data, expiry_date from "@ + TABLE_NAME@
            + "\n            where id = ? and expiry_date > ?\n            "@,
        values_view(r.1@) == seq![SqlValueView::Text(session_id@), SqlValueView::Integer(now)],
{
    let ghost sid = session_id@;
    let mut sql = String::new();
    push_str(&mut sql, "\n            select id, data, expiry_date from ");
    push_str(&mut sql, TABLE_NAME);
    push_str(&mut sql, "\n            where id = ? and expiry_date > ?\n            ");
    let params = vec![SqlValue::Text(session_id), SqlValue::Integer(now)];
    assert(values_view(params@) =~= seq![SqlValueView::Text(sid), SqlValueView::Integer(now)]);
    (sql, params)
}

/// The statement that deletes the session `session_id`, and its values.
pub fn delete_session_criteria(session_id: String) -> (r: (String, Vec<SqlValue>))
    ensures
        r.0@ == "\n            delete from "@ + TABLE_NAME@ + " where id = ?\n            "@,
        values_view(r.1@) == seq![SqlValueView::Text(session_id@)],
{
    let ghost sid = session_id@;
    let sql = SessionTable::new().delete_sql();
    let params = vec![SqlValue::Text(session_id)];
    assert(values_view(params@) =~= seq![SqlValueView::Text(sid)]);
    (sql, params)
}

/// The statement that deletes the sessions that have expired.
pub fn delete_expired_session_sql() -> (r: String)
    ensures
        r@ == "\n            delete from "@ + TABLE_NAME@
            + "\n            where expiry_date < datetime('now', 'utc')\n            "@,
{
    SessionTable::new().delete_expired_sql()
}

/// The statement that creates the table of the sessions when it does not exist.
pub fn migrate_session_table_sql() -> (r: String)
    ensures
        r@ == "\n            create table if not exists "@ + TABLE_NAME@
            + "\n            (\n                id text primary key not null,\n                data blob not null,\n                expiry_date integer not null\n            )\n            "@,
{
    SessionTable::new().migrate_sql()
}

} // verus!
