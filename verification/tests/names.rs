use memos::api::prefix::{
    extract_id, extract_name, format_name, get_id_parent_token, get_name_parent_token, Error, ExtractName,
    FormatName, MEMO_NAME_PREFIX, USER_NAME_PREFIX,
};
use memos::api::system::SystemSettingKey;
use memos::api::v1::gen::{Direction, GetWorkspaceSettingRequest, Memo};
use memos::model::gen::{ResourceStorageType, UserSettingKey, WorkspaceSettingKey};
use memos::pb::memos_api_v2::{Role, RowStatus, Status, Type, Visibility};
use memos::text::{format_decimal, parse_bool, parse_i32, parse_i64, parse_usize, IntErrorKind};
use memos::api::v1::gen::{ DeleteMemoRequest, DeleteResourceRequest, GetMemoRequest, GetResourceRequest, GetUserRequest, Inbox, ListMemoPropertiesRequest, SetMemoResourcesRequest, };

#[test]
fn parent_token_of_a_name() {
    assert_eq!(get_name_parent_token("users/abc", "users").ok(), Some("abc".to_string()));
    assert_eq!(get_id_parent_token("memos/42", "memos").ok(), Some(42));
}

#[test]
fn parent_token_errors() {
    match get_name_parent_token("users", "users") {
        Err(Error::InvalidRequest { name }) => assert_eq!(name, "users"),
        _ => panic!("expected an invalid request"),
    }
    match get_name_parent_token("a/b/c", "a") {
        Err(Error::InvalidRequest { name }) => assert_eq!(name, "a/b/c"),
        _ => panic!("expected an invalid request"),
    }
    match get_name_parent_token("memos/1", "users") {
        Err(Error::InvalidPrefix { name }) => assert_eq!(name, "memos/1"),
        _ => panic!("expected an invalid prefix"),
    }
    match get_id_parent_token("users/x1", "users") {
        Err(Error::Id { source }) => assert_eq!(source, IntErrorKind::InvalidDigit),
        _ => panic!("expected an id error"),
    }
    match get_id_parent_token("users/", "users") {
        Err(Error::Id { source }) => assert_eq!(source, IntErrorKind::Empty),
        _ => panic!("expected an id error"),
    }
}

#[test]
fn formatted_name_reads_back() {
    let name = format_name(USER_NAME_PREFIX, -17);
    assert_eq!(name, "users/-17");
    assert_eq!(get_id_parent_token(&name, USER_NAME_PREFIX).ok(), Some(-17));
}

#[test]
fn extracted_names() {
    let memo = Memo { name: "memos/12".to_string(), ..Default::default() };
    assert_eq!(memo.get_name(), "12");
    assert_eq!(memo.get_id().ok(), Some(12));
    let odd = "plain".to_string();
    assert_eq!(extract_name(&odd, MEMO_NAME_PREFIX), "plain");
    assert!(matches!(extract_id(&odd, MEMO_NAME_PREFIX), Err(Error::Id { .. })));
    let req = GetWorkspaceSettingRequest { name: "settings/GENERAL".to_string() };
    assert_eq!(req.get_name(), "GENERAL");
}

#[test]
fn model_memo_name() {
    let memo = memos::model::memo::Memo { id: 5, ..Default::default() };
    assert_eq!(memo.get_name(), "memos/5");
}

#[test]
fn decimal_text() {
    assert_eq!(format_decimal(0), "0");
    assert_eq!(format_decimal(i64::MIN), "-9223372036854775808");
    assert_eq!(parse_i64("-9223372036854775808").ok(), Some(i64::MIN));
    assert_eq!(parse_i32("+12").ok(), Some(12));
    assert_eq!(parse_i32("2147483648").err(), Some(IntErrorKind::PosOverflow));
    assert_eq!(parse_i32("-2147483649").err(), Some(IntErrorKind::NegOverflow));
    assert_eq!(parse_i32("").err(), Some(IntErrorKind::Empty));
    assert_eq!(parse_i32("-").err(), Some(IntErrorKind::InvalidDigit));
    assert_eq!(parse_usize("-1").err(), Some(IntErrorKind::InvalidDigit));
    assert_eq!(parse_usize("007").ok(), Some(7));
    assert_eq!(parse_bool("true"), Some(true));
    assert_eq!(parse_bool("True"), None);
}

#[test]
fn enum_names() {
    assert_eq!(RowStatus::Active.as_str_name(), "ACTIVE");
    assert_eq!(RowStatus::from_str_name("ARCHIVED"), Some(RowStatus::Archived));
    assert_eq!(RowStatus::from_i32(2), Some(RowStatus::Archived));
    assert_eq!(RowStatus::from_i32(3), None);
    assert_eq!(Role::Host.as_str_name(), "HOST");
    assert_eq!(Role::from_str_name("USER"), Some(Role::User));
    assert_eq!(Visibility::from_str_name("PRIVATE"), Some(Visibility::Private));
    assert_eq!(Visibility::Protected.as_i32(), 2);
    assert_eq!(Status::from_str_name("nope"), None);
    assert_eq!(Type::from_str_name(Type::MemoComment.as_str_name()), Some(Type::MemoComment));
    assert_eq!(Direction::Desc.as_str_name(), "DESC");
    assert_eq!(ResourceStorageType::Local.as_str_name(), "LOCAL");
    assert_eq!(UserSettingKey::MemoVisibility.as_str_name(), "MEMO_VISIBILITY");
    assert_eq!(WorkspaceSettingKey::from_str_name("MEMO_RELATED"), Some(WorkspaceSettingKey::MemoRelated));
}

#[test]
fn system_setting_keys() {
    assert_eq!(SystemSettingKey::from_str("allow-signup"), Ok(SystemSettingKey::AllowSignup));
    assert_eq!(SystemSettingKey::from_str("whatever"), Ok(SystemSettingKey::Unknow));
    assert_eq!(SystemSettingKey::MaxUploadSizeMiB.to_string(), "max-upload-size-mib");
    let k = SystemSettingKey::MemoDisplayWithUpdatedTs;
    assert_eq!(SystemSettingKey::from_str(&k.to_string()), Ok(k));
}

#[test]
fn request_names() {
    assert_eq!(GetMemoRequest { name: "memos/1".to_string() }.get_id().ok(), Some(1));
    assert_eq!(DeleteMemoRequest { name: "memos/2".to_string() }.get_id().ok(), Some(2));
    assert_eq!(SetMemoResourcesRequest { name: "memos/3".to_string(), resources: vec![] }.get_id().ok(), Some(3));
    assert_eq!(ListMemoPropertiesRequest { name: "memos/4".to_string() }.get_name(), "4");
    assert_eq!(GetResourceRequest { name: "resources/5".to_string() }.get_id().ok(), Some(5));
    assert_eq!(DeleteResourceRequest { name: "resources/6".to_string() }.get_id().ok(), Some(6));
    assert_eq!(GetUserRequest { name: "users/7".to_string() }.get_id().ok(), Some(7));
    let inbox = Inbox { name: "inboxes/8".to_string(), ..Default::default() };
    assert_eq!(inbox.get_id().ok(), Some(8));
    assert!(GetUserRequest { name: "memos/7".to_string() }.get_id().is_err());
}
