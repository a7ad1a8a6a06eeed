use vstd::prelude::*;

use crate::api::system::{setting_key_name, SystemSettingKey};
use crate::dao::turso::{values_view, SqlValue, SqlValueView};
use crate::text::push_str;

verus! {

broadcast use vstd::string::group_string_axioms;

/// The query for all system settings.
pub fn list_setting_sql() -> (r: String)
    ensures
        r@ == "select * from system_setting"@,
{
    let mut sql = String::new();
    push_str(&mut sql, "select * from system_setting");
    sql
}

/// The query for the system setting named by `key`; of the rows it gives, the last one
/// is the setting.
pub fn find_setting_criteria(key: SystemSettingKey) -> (r: (String, Vec<SqlValue>))
    ensures
        r.0@ == "select * from system_setting where name = ?"@,
        values_view(r.1@) == seq![SqlValueView::Text(setting_key_name(key))],
{
    let mut sql = String::new();
    push_str(&mut sql, "select * from system_setting where name = ?");
    let params = vec![SqlValue::Text(key.to_string())];
    assert(values_view(params@) =~= seq![SqlValueView::Text(setting_key_name(key))]);
    (sql, params)
}

} // verus!
