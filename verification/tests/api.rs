use memos::api::memo::snippet;
use memos::api::system::{SystemSetting, SystemSettingKey};
use memos::api::v1::gen::{
    GetAuthStatusResponse, Memo, Resource, UpdateMemoRequest, UpdateUserSettingRequest, User,
    UserSetting as UserSettingApi, WorkspaceGeneralSetting, WorkspaceSettingValue, WorkspaceStorageSetting,
};
use memos::api::v1::system::{CustomizedProfile, Host, SystemStatus};
use memos::model::gen as store;
use memos::model::gen::{MemoPayload, UserSettingKey};
use memos::model::memo::UpdateMemo;
use memos::model::user::UserSetting;
use memos::pb::memos_api_v2::{ListTagsResponse, Role, RowStatus, Tag, Visibility};
use memos::pb::{FieldMask, Timestamp};

fn mask(paths: &[&str]) -> Option<FieldMask> {
    Some(FieldMask { paths: paths.iter().map(|p| p.to_string()).collect() })
}

#[test]
fn snippet_of_content() {
    assert_eq!(snippet("short"), "...");
    let long = "a".repeat(120);
    assert_eq!(snippet(&long), format!("{}...", "a".repeat(99)));
    let exact = "b".repeat(99);
    assert_eq!(snippet(&exact), format!("{exact}..."));
    let cut = format!("{}é", "c".repeat(98));
    assert_eq!(snippet(&cut), "...");
}

#[test]
fn memo_view_of_stored_memo() {
    let stored = memos::model::memo::Memo {
        id: 8,
        uid: "u".to_string(),
        row_status: RowStatus::Active,
        creator_id: 3,
        created_ts: 10,
        updated_ts: 0,
        content: "hi".to_string(),
        visibility: Visibility::Public,
        pinned: true,
        payload: MemoPayload::tag("x".to_string()),
    };
    let memo = Memo::from_model(stored);
    assert_eq!(memo.name, "memos/8");
    assert_eq!(memo.creator, "users/3");
    assert_eq!(memo.row_status, 1);
    assert_eq!(memo.visibility, 3);
    assert_eq!(memo.create_time, Some(Timestamp { seconds: 10, nanos: 0 }));
    assert_eq!(memo.update_time, None);
    assert_eq!(memo.snippet, "...");
    assert_eq!(memo.property.unwrap().tags, vec!["x".to_string()]);
}

#[test]
fn update_from_request_takes_masked_fields() {
    let req = UpdateMemoRequest {
        memo: Some(Memo {
            name: "memos/5".to_string(),
            content: "new".to_string(),
            visibility: 2,
            row_status: 9,
            pinned: true,
            ..Default::default()
        }),
        update_mask: mask(&["content", "visibility", "row_status", "other"]),
    };
    let u = UpdateMemo::from_request(&req);
    assert_eq!(u.id, 5);
    assert_eq!(u.content, Some("new".to_string()));
    assert_eq!(u.visibility, Some(Visibility::Protected));
    assert_eq!(u.row_status, None);
    assert_eq!(u.pinned, None);
}

#[test]
fn update_without_mask_changes_nothing() {
    let u = UpdateMemo::from_request(&UpdateMemoRequest { memo: Some(Memo::default()), update_mask: None });
    assert_eq!(u.id, 0);
    assert!(u.content.is_none() && u.visibility.is_none() && u.pinned.is_none());
}

#[test]
fn user_settings_from_request() {
    let req = UpdateUserSettingRequest {
        setting: Some(UserSettingApi {
            locale: "en".to_string(),
            appearance: "dark".to_string(),
            memo_visibility: "PUBLIC".to_string(),
        }),
        update_mask: mask(&["appearance", "nope", "locale"]),
    };
    let settings = req.as_settings(7);
    assert_eq!(settings.len(), 2);
    assert_eq!(settings[0].key, UserSettingKey::Appearance);
    assert_eq!(settings[0].value, "dark");
    assert_eq!(settings[1].key, UserSettingKey::Locale);
    assert!(settings.iter().all(|s| s.user_id == 7));
    let none = UpdateUserSettingRequest { setting: None, update_mask: mask(&["locale"]) };
    assert!(none.as_settings(7).is_empty());
}

#[test]
fn api_settings_from_stored_settings() {
    let stored = vec![
        UserSetting { user_id: 1, key: UserSettingKey::Locale, value: "fr".to_string() },
        UserSetting { user_id: 1, key: UserSettingKey::AccessTokens, value: "t".to_string() },
        UserSetting { user_id: 1, key: UserSettingKey::Locale, value: "de".to_string() },
    ];
    let s = UserSettingApi::from_settings(stored);
    assert_eq!(s.locale, "de");
    assert_eq!(s.appearance, "");
}

#[test]
fn user_view_of_stored_user() {
    let stored = memos::model::user::User {
        id: 2,
        role: Role::Admin,
        username: "ann".to_string(),
        password_hash: "h".to_string(),
        row_status: RowStatus::Archived,
        created_ts: 4,
        ..Default::default()
    };
    let user = User::from_model(stored);
    assert_eq!(user.name, "users/2");
    assert_eq!(user.role, Role::Admin.as_i32());
    assert_eq!(user.password, "h");
    assert_eq!(user.row_status, 2);
    assert_eq!(user.create_time, Some(Timestamp { seconds: 4, nanos: 0 }));
    let status = GetAuthStatusResponse::from_user(user);
    assert_eq!(status.user.unwrap().username, "ann");
}

#[test]
fn system_status_from_settings() {
    let setting = |name: SystemSettingKey, value: &str| {
        (SystemSetting { name, value: value.to_string(), description: String::new() }, None)
    };
    let profile = CustomizedProfile {
        appearance: "dark".to_string(),
        description: String::new(),
        external_url: String::new(),
        locale: "en".to_string(),
        logo_url: String::new(),
        name: "Mine".to_string(),
    };
    let status = SystemStatus::from_settings(vec![
        setting(SystemSettingKey::AllowSignup, "false"),
        setting(SystemSettingKey::MaxUploadSizeMiB, "64"),
        setting(SystemSettingKey::StorageServiceID, "x"),
        setting(SystemSettingKey::AdditionalStyle, "body{}"),
        (
            SystemSetting {
                name: SystemSettingKey::CustomizedProfile,
                value: String::new(),
                description: String::new(),
            },
            Some(profile),
        ),
    ]);
    assert!(!status.allow_sign_up);
    assert_eq!(status.max_upload_size_mi_b, 64);
    assert_eq!(status.storage_service_id, 0);
    assert_eq!(status.additional_style, "body{}");
    assert_eq!(status.customized_profile.name, "Mine");
    assert_eq!(status.local_storage_path, "assets/{timestamp}_{filename}");
    let default = SystemStatus::from_settings(vec![]);
    assert!(default.allow_sign_up);
    assert_eq!(default.max_upload_size_mi_b, 32);
    assert_eq!(default.storage_service_id, -1);
    assert_eq!(default.customized_profile.locale, "zh-Hans");
}

#[test]
fn host_from_user() {
    let user = memos::pb::memos_api_v2::User { id: 11, ..Default::default() };
    assert_eq!(Host::from_user(&user).id, 11);
}

#[test]
fn resource_views() {
    let stored = memos::model::resource::Resource {
        id: 6,
        uid: "r".to_string(),
        created_ts: 3,
        filename: "a.png".to_string(),
        blob: vec![1, 2],
        type_: "image/png".to_string(),
        size: 2,
        memo_id: Some(4),
        ..Default::default()
    };
    let res = Resource::from_model(stored);
    assert_eq!(res.name, "resources/6");
    assert_eq!(res.memo, Some("memos/4".to_string()));
    assert_eq!(res.size, 2);
    assert_eq!(res.get_memo(), Some(4));
    let upload = Resource {
        filename: "b.txt".to_string(),
        content: vec![1, 2, 3],
        memo: Some("users/1".to_string()),
        ..Default::default()
    };
    let new = memos::model::resource::Resource::from_upload(upload, "uid1".to_string());
    assert_eq!(new.uid, "uid1");
    assert_eq!(new.size, 3);
    assert_eq!(new.memo_id, None);
}

#[test]
fn tags_name_their_creator() {
    let r = ListTagsResponse::from_tags(vec![Tag { name: "t".to_string(), creator: "ann".to_string() }]);
    assert_eq!(r.tags.len(), 1);
    assert_eq!(r.tags[0].name, "t");
    assert_eq!(r.tags[0].creator, "users/ann");
}

#[test]
fn workspace_settings_as_api_shows_them() {
    let general = store::WorkspaceGeneralSetting {
        additional_script: "s".to_string(),
        additional_style: "c".to_string(),
        custom_profile: Some(store::WorkspaceCustomProfile { title: "T".to_string(), ..Default::default() }),
    };
    match WorkspaceSettingValue::from_model(store::WorkspaceSettingValue::GeneralSetting(general)) {
        WorkspaceSettingValue::GeneralSetting(WorkspaceGeneralSetting { additional_script, custom_profile, .. }) => {
            assert_eq!(additional_script, "s");
            assert_eq!(custom_profile.unwrap().title, "T");
        },
        _ => panic!("expected general settings"),
    }
    let storage = store::WorkspaceStorageSetting {
        storage_type: 2,
        upload_size_limit_mb: 30,
        s3_config: Some(store::StorageS3Config { bucket: "b".to_string(), ..Default::default() }),
        ..Default::default()
    };
    let api = WorkspaceStorageSetting::from_model(storage);
    assert_eq!(api.storage_type, 2);
    assert_eq!(api.upload_size_limit_mb, 30);
    assert_eq!(api.s3_config.unwrap().bucket, "b");
}
