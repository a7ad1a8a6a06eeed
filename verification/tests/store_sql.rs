use memos::dao::memo::CreateMemoError;
use memos::dao::resource::RelateResourceError;
use memos::dao::session::DeleteExpiredSessionError;
use memos::dao::turso::resource::{create_resource_criteria, list_resources_criteria, set_resources_memo_statements};
use memos::model::resource::{FindResource, Resource};
use memos::dao::turso::session::{
    create_session_criteria, delete_expired_session_sql, delete_session_criteria, get_session_criteria,
    migrate_session_table_sql,
};
use memos::dao::turso::user::{
    find_user_criteria, find_user_setting_criteria, host_user_criteria, petch_user_criteria,
    upsert_user_setting_params, upsert_user_setting_sql,
};
use memos::dao::turso::workspace::{find_workspace_setting_criteria, setting_shape, SettingShape};
use memos::dao::turso::SqlValue;
use memos::dao::user::PetchUserError;
use memos::dao::workspace::FindWorkspaceSettingError;
use memos::model::gen::{UserSettingKey, WorkspaceSettingKey};
use memos::model::session::Session;
use memos::model::user::UserSetting;
use memos::pb::{row_status_code, row_status_text, role_code, role_text, timestamp_from_seconds, timestamp_seconds};
use memos::api::system::SystemSettingKey;
use memos::dao::system_setting::{find_setting_criteria, list_setting_sql};
use memos::dao::tag::{delete_tag_criteria, list_tags_criteria, upsert_tag_criteria};
use memos::dao::turso::resource::{delete_resource_criteria, get_resource_criteria, resources_of_memo_criteria};

const USER_COLUMNS: &str = "select id, created_ts, updated_ts, row_status, username, role, email, nickname, password_hash, avatar_url, description from user where ";

fn text(s: &str) -> SqlValue {
    SqlValue::Text(s.to_string())
}

#[test]
fn user_queries() {
    let (sql, params) = find_user_criteria("ann", None);
    assert_eq!(sql, format!("{USER_COLUMNS}username = ?"));
    assert_eq!(params, vec![text("ann")]);
    let (sql, params) = find_user_criteria("ann", Some("h"));
    assert_eq!(sql, format!("{USER_COLUMNS}username = ? and password_hash = ?"));
    assert_eq!(params, vec![text("ann"), text("h")]);
    let (sql, params) = petch_user_criteria(3);
    assert_eq!(sql, format!("{USER_COLUMNS}id = ?"));
    assert_eq!(params, vec![SqlValue::Integer(3)]);
    let (sql, params) = host_user_criteria();
    assert_eq!(sql, format!("{USER_COLUMNS}role = ?"));
    assert_eq!(params, vec![text("HOST")]);
    let (sql, params) = find_user_setting_criteria(4);
    assert_eq!(sql, "select * from user_setting where user_id = ?");
    assert_eq!(params, vec![SqlValue::Integer(4)]);
}

#[test]
fn user_setting_upsert() {
    assert!(upsert_user_setting_sql().starts_with("insert into user_setting (user_id, key, value)"));
    let s = UserSetting { user_id: 2, key: UserSettingKey::Appearance, value: "dark".to_string() };
    assert_eq!(upsert_user_setting_params(&s), vec![SqlValue::Integer(2), text("APPEARANCE"), text("dark")]);
}

#[test]
fn session_statements() {
    let (sql, params) = create_session_criteria(Session { id: "s1".to_string(), data: vec![7], expiry_date: 99 });
    assert!(sql.contains("insert into sessions\n"));
    assert_eq!(params, vec![text("s1"), SqlValue::Blob(vec![7]), SqlValue::Integer(99)]);
    let (sql, params) = get_session_criteria("s1".to_string(), 5);
    assert_eq!(
        sql,
        "\n            select id, data, expiry_date from sessions\n            where id = ? and expiry_date > ?\n            "
    );
    assert_eq!(params, vec![text("s1"), SqlValue::Integer(5)]);
    let (sql, params) = delete_session_criteria("s1".to_string());
    assert_eq!(sql, "\n            delete from sessions where id = ?\n            ");
    assert_eq!(params, vec![text("s1")]);
    assert!(delete_expired_session_sql().contains("delete from sessions\n"));
    assert!(migrate_session_table_sql().contains("create table if not exists sessions\n"));
}

#[test]
fn workspace_setting_query() {
    let (sql, params) = find_workspace_setting_criteria(WorkspaceSettingKey::Storage);
    assert_eq!(sql, "select * from system_setting where name = ?");
    assert_eq!(params, vec![text("STORAGE")]);
    assert_eq!(setting_shape(WorkspaceSettingKey::General), Some(SettingShape::General));
    assert_eq!(setting_shape(WorkspaceSettingKey::Basic), None);
    assert_eq!(setting_shape(WorkspaceSettingKey::Unspecified), None);
}

#[test]
fn resources_of_a_memo() {
    let plan = set_resources_memo_statements(9, &vec![1, 2], &vec![3]);
    assert_eq!(plan.len(), 3);
    assert_eq!(plan[0].0, "update resource set memo_id = ? where id = ?");
    assert_eq!(plan[1].1, vec![SqlValue::Integer(9), SqlValue::Integer(2)]);
    assert_eq!(plan[2].0, "delete from resource where memo_id = ? and id = ?");
    assert_eq!(plan[2].1, vec![SqlValue::Integer(9), SqlValue::Integer(3)]);
    assert!(set_resources_memo_statements(9, &vec![], &vec![]).is_empty());
}

#[test]
fn store_error_messages() {
    assert_eq!(CreateMemoError { source: "x".to_string() }.message(), "Failed to create memo: x");
    assert_eq!(RelateResourceError { source: "y".to_string() }.message(), "Failed to relate resource: y");
    assert_eq!(
        DeleteExpiredSessionError { source: "z".to_string() }.message(),
        "Failed to delete expired session: z"
    );
    assert_eq!(PetchUserError { source: "w".to_string() }.message(), "Failed to petch user: w");
    assert_eq!(
        FindWorkspaceSettingError { source: "v".to_string() }.message(),
        "Failed to find workspace setting: v"
    );
}

#[test]
fn json_forms_of_numbers() {
    assert_eq!(row_status_text(1), "ACTIVE");
    assert_eq!(row_status_text(42), "ROW_STATUS_UNSPECIFIED");
    assert_eq!(row_status_code("ARCHIVED"), 2);
    assert_eq!(row_status_code("archived"), 0);
    assert_eq!(role_text(1), "HOST");
    assert_eq!(role_code(role_text(3)), 3);
    assert_eq!(timestamp_seconds(&None), 0);
    assert_eq!(timestamp_seconds(&timestamp_from_seconds(77)), 77);
}

#[test]
fn resource_statements_bind_each_placeholder() {
    let full = Resource {
        id: 3,
        uid: "u".to_string(),
        created_ts: 5,
        blob: vec![1],
        reference: "r".to_string(),
        memo_id: Some(2),
        ..Default::default()
    };
    for r in [Resource::default(), full] {
        let (sql, params) = create_resource_criteria(r);
        assert_eq!(sql.matches('?').count(), params.len(), "{sql}");
    }
    let (sql, params) = create_resource_criteria(Resource::default());
    assert_eq!(
        sql,
        "insert into resource (uid, filename, type, size, creator_id, storage_type, payload) values (?, ?, ?, ?, ?, ?, ?) returning id, memo_id, uid, filename, type, size, created_ts, reference"
    );
    assert_eq!(params.len(), 7);
    let find = FindResource {
        id: Some(1),
        creator_id: Some(2),
        has_relate_memo: true,
        limit: Some(10),
        offset: Some(20),
        get_blob: true,
        ..Default::default()
    };
    let (sql, params) = list_resources_criteria(&find);
    assert_eq!(
        sql,
        "select id, uid, filename, reference, type, size, created_ts, memo_id, blob as content from resource where 1 = 1 AND id = ? AND creator_id = ? AND memo_id IS NOT NULL LIMIT 10 OFFSET 20"
    );
    assert_eq!(params, vec![SqlValue::Integer(1), SqlValue::Integer(2)]);
    assert_eq!(sql.matches('?').count(), params.len());
}

#[test]
fn tag_and_setting_statements() {
    let (sql, params) = list_tags_criteria(5);
    assert!(sql.ends_with("where user.id = ? and user.id = tag.creator_id"));
    assert_eq!(params, vec![SqlValue::Integer(5)]);
    let (sql, params) = delete_tag_criteria("t", 5);
    assert_eq!(sql, "delete from tag where name = ? and creator_id = ?");
    assert_eq!(params, vec![text("t"), SqlValue::Integer(5)]);
    let (sql, params) = upsert_tag_criteria("t", 5);
    assert!(sql.contains("ON CONFLICT(name, creator_id) DO UPDATE"));
    assert_eq!(params, vec![text("t"), SqlValue::Integer(5)]);
    assert_eq!(list_setting_sql(), "select * from system_setting");
    let (sql, params) = find_setting_criteria(SystemSettingKey::AllowSignup);
    assert_eq!(sql, "select * from system_setting where name = ?");
    assert_eq!(params, vec![text("allow-signup")]);
}

#[test]
fn single_resource_statements() {
    let (sql, params) = resources_of_memo_criteria(8);
    assert!(sql.ends_with("from resource where memo_id = ?"));
    assert_eq!(params, vec![SqlValue::Integer(8)]);
    let (sql, params) = delete_resource_criteria(1, 2);
    assert_eq!(sql, "delete from resource where id = ? and creator_id = ?");
    assert_eq!(params, vec![SqlValue::Integer(1), SqlValue::Integer(2)]);
    let (sql, params) = get_resource_criteria(1);
    assert_eq!(sql, "select * from resource where id = ?");
    assert_eq!(params, vec![SqlValue::Integer(1)]);
}
