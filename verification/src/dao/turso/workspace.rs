use vstd::prelude::*;

use crate::dao::turso::{values_view, SqlValue, SqlValueView};
use crate::model::gen::{workspace_setting_key_name, WorkspaceSettingKey};
use crate::model::system::SystemSetting;
use crate::text::push_str;

verus! {

broadcast use vstd::string::group_string_axioms;

/// The query for the stored setting of the workspace named by `key`, and its values.
pub fn find_workspace_setting_criteria(key: WorkspaceSettingKey) -> (r: (String, Vec<SqlValue>))
    ensures
        r.0@ == "select * from system_setting where name = ?"@,
        values_view(r.1@) == seq![SqlValueView::Text(workspace_setting_key_name(key))],
{
    let mut sql = String::new();
    push_str(&mut sql, "select * from system_setting where name = ?");
    let params = vec![SqlValue::Text(key.as_str_name().to_string())];
    assert(values_view(params@) =~= seq![SqlValueView::Text(workspace_setting_key_name(key))]);
    (sql, params)
}

/// The kind of setting that the stored JSON text of a workspace setting is read as.
#[derive(Clone, Copy, Debug, PartialEq, Eq, Structural)]
pub enum SettingShape {
    General,
    Storage,
    MemoRelated,
}

/// The kind of setting that is read for `key`; the unspecified key and the basic
/// settings are not read.
pub open spec fn shape_for(key: WorkspaceSettingKey) -> Option<SettingShape> {
    match key {
        WorkspaceSettingKey::Unspecified => None,
        WorkspaceSettingKey::Basic => None,
        WorkspaceSettingKey::General => Some(SettingShape::General),
        WorkspaceSettingKey::Storage => Some(SettingShape::Storage),
        WorkspaceSettingKey::MemoRelated => Some(SettingShape::MemoRelated),
    }
}

/// The kind of setting that the stored value for `key` is read as.
pub fn setting_shape(key: WorkspaceSettingKey) -> (r: Option<SettingShape>)
    ensures
        r == shape_for(key),
{
    match key {
        WorkspaceSettingKey::Unspecified => None,
        WorkspaceSettingKey::Basic => None,
        WorkspaceSettingKey::General => Some(SettingShape::General),
        WorkspaceSettingKey::Storage => Some(SettingShape::Storage),
        WorkspaceSettingKey::MemoRelated => Some(SettingShape::MemoRelated),
    }
}

/// The stored value that the workspace setting named by `key` is read from, and the
/// kind of setting it is read as, given the rows stored under that name: the value of
/// the last row. Nothing is read where the key is not read at all or no row is stored.
pub open spec fn value_to_read(key: WorkspaceSettingKey, rows: Seq<SystemSetting>) -> Option<(SettingShape, Seq<char>)> {
    match shape_for(key) {
        None => None,
        Some(shape) => if rows.len() == 0 {
            None
        } else {
            Some((shape, rows.last().value@))
        },
    }
}

/// Which stored value the workspace setting named by `key` is read from, and as what.
/// `None` means that the setting is absent; where a value is named, the setting is what
/// that value decodes to as the named kind, and absent where it does not decode.
pub fn setting_to_read(key: WorkspaceSettingKey, rows: Vec<SystemSetting>) -> (r: Option<(SettingShape, String)>)
    ensures
        match r {
            None => value_to_read(key, rows@) is None,
            Some((shape, value)) => value_to_read(key, rows@) == Some((shape, value@)),
        },
{
    let mut rows = rows;
    match setting_shape(key) {
        None => None,
        Some(shape) => match rows.pop() {
            None => None,
            Some(last) => Some((shape, last.value)),
        },
    }
}

} // verus!
