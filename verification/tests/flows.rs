use memos::ctrl::auth::{authenticated, SignInError};
use memos::ctrl::store::{load_start, Error as StoreError, LoadAction, LoadEvent, LoadState, SessionTable};
use memos::api::prefix::{get_id_parent_token, Error as NameError};
use memos::api::system::{SystemSetting, SystemSettingKey};
use memos::api::v1::gen::Memo as ApiMemo;
use memos::cel::{cel_safe_text, parse_cel, CelExpr};
use memos::ctrl::resource::{
    upload_content_type, upload_start, upload_step, Error as UploadError, UploadAction, UploadEvent, UploadField,
    UploadState,
};
use memos::dao::turso::memo::find::{FindMemoError, blank_text};
use memos::dao::turso::workspace::{setting_to_read, SettingShape};
use memos::dao::turso::SqlValue;
use memos::model::gen::{ResourceStorageType, WorkspaceSettingKey};
use memos::model::memo::{FindMemo, Memo};
use memos::pb::memos_api_v2::Resource;
use memos::pb::Timestamp;

fn field(len: usize) -> UploadField {
    UploadField { filename: "a.txt".to_string(), type_: "text/plain".to_string(), data: vec![7u8; len] }
}

fn limit(value: &str) -> SystemSetting {
    SystemSetting {
        name: SystemSettingKey::MaxUploadSizeMiB,
        value: value.to_string(),
        description: String::new(),
    }
}

#[test]
fn upload_without_file_is_refused_before_any_lookup() {
    let (state, action) = upload_start(5);
    assert!(matches!(action, UploadAction::ReadField));
    assert!(matches!(state, UploadState::AwaitField { user_id: 5 }));
    let (state, action) = upload_step(state, UploadEvent::FieldRead(None));
    assert!(matches!(state, UploadState::Done));
    assert!(matches!(action, UploadAction::Reply(Err(UploadError::UploadFileNotFound))));
}

#[test]
fn upload_within_limit_stores_the_file_for_the_user() {
    let (state, _) = upload_start(5);
    let (state, action) = upload_step(state, UploadEvent::FieldRead(Some(field(10))));
    assert!(matches!(action, UploadAction::FindSetting(SystemSettingKey::MaxUploadSizeMiB)));
    let (state, action) = upload_step(state, UploadEvent::SettingFound(None));
    assert!(matches!(state, UploadState::AwaitCreated { user_id: 5 }));
    match action {
        UploadAction::Create(res) => {
            assert_eq!(res.creator_id, 5);
            assert_eq!(res.filename, "a.txt");
            assert_eq!(res.type_, "text/plain");
            assert_eq!(res.blob, vec![7u8; 10]);
            assert_eq!(res.size, 10);
            assert_eq!(res.id, 0);
            assert_eq!(res.storage_type, ResourceStorageType::Unspecified);
            assert!(res.memo_id.is_none());
        }
        other => panic!("unexpected {other:?}"),
    }
    let stored = Resource {
        id: 9,
        created_ts: Some(Timestamp { seconds: 100, nanos: 0 }),
        filename: "a.txt".to_string(),
        external_link: String::new(),
        type_: "text/plain".to_string(),
        size: 10,
        memo_id: None,
    };
    let (state, action) = upload_step(state, UploadEvent::Created(stored));
    assert!(matches!(state, UploadState::Done));
    match action {
        UploadAction::Reply(Ok(resp)) => {
            assert_eq!(resp.id, 9);
            assert_eq!(resp.creator_id, 5);
            assert_eq!(resp.created_ts, 100);
            assert_eq!(resp.updated_ts, 100);
            assert_eq!(resp.size, 10);
        }
        other => panic!("unexpected {other:?}"),
    }
}

#[test]
fn upload_of_exactly_the_limit_is_refused_and_nothing_stored() {
    let (state, _) = upload_start(1);
    let (state, _) = upload_step(state, UploadEvent::FieldRead(Some(field(1048576))));
    let (state, action) = upload_step(state, UploadEvent::SettingFound(Some(limit("1"))));
    assert!(matches!(state, UploadState::Done));
    match action {
        UploadAction::Reply(Err(UploadError::FileSizeLimit { size })) => assert_eq!(size, "1"),
        other => panic!("unexpected {other:?}"),
    }
}

#[test]
fn upload_just_under_a_stored_limit_is_stored() {
    let (state, _) = upload_start(1);
    let (state, _) = upload_step(state, UploadEvent::FieldRead(Some(field(1048575))));
    let (_, action) = upload_step(state, UploadEvent::SettingFound(Some(limit("1"))));
    assert!(matches!(action, UploadAction::Create(_)));
}

#[test]
fn upload_type_defaults_to_form_data() {
    assert_eq!(upload_content_type(None), "multipart/form-data");
    assert_eq!(upload_content_type(Some("image/png".to_string())), "image/png");
}

#[test]
fn id_parent_token_reports_the_name() {
    assert!(matches!(get_id_parent_token("memos/123", "memos"), Ok(123)));
    assert!(matches!(get_id_parent_token("memos/abc", "memos"), Err(NameError::Id { .. })));
    match get_id_parent_token("users/1", "memos") {
        Err(NameError::InvalidPrefix { name }) => assert_eq!(name, "users/1"),
        other => panic!("unexpected {other:?}"),
    }
    match get_id_parent_token("memos/1/2", "memos") {
        Err(NameError::InvalidRequest { name }) => assert_eq!(name, "memos/1/2"),
        other => panic!("unexpected {other:?}"),
    }
}

fn row(value: &str) -> memos::model::system::SystemSetting {
    memos::model::system::SystemSetting {
        name: "GENERAL".to_string(),
        value: value.to_string(),
        description: String::new(),
    }
}

#[test]
fn workspace_setting_is_read_from_the_last_row() {
    let rows = vec![row("{\"a\":1}"), row("{\"b\":2}")];
    match setting_to_read(WorkspaceSettingKey::General, rows) {
        Some((shape, value)) => {
            assert_eq!(shape, SettingShape::General);
            assert_eq!(value, "{\"b\":2}");
        }
        None => panic!("a row is stored"),
    }
    assert!(setting_to_read(WorkspaceSettingKey::Storage, vec![]).is_none());
    assert!(setting_to_read(WorkspaceSettingKey::Basic, vec![row("{}")]).is_none());
    assert!(setting_to_read(WorkspaceSettingKey::Unspecified, vec![row("{}")]).is_none());
}

#[test]
fn api_memo_lists_nothing_it_does_not_hold() {
    let memo = ApiMemo::from_model(Memo { id: 3, creator_id: 4, content: "hi".to_string(), ..Default::default() });
    assert_eq!(memo.name, "memos/3");
    assert_eq!(memo.creator, "users/4");
    assert!(memo.tags.is_empty());
    assert!(memo.resources.is_empty());
    assert!(memo.relations.is_empty());
    assert!(memo.reactions.is_empty());
    assert!(memo.parent_id.is_none());
    assert!(memo.parent.is_none());
    assert_eq!(memo.snippet, "...");
}

#[test]
fn search_filter_is_parsed_from_the_search() {
    let find = FindMemo { filter: "1 +".to_string(), ..Default::default() };
    assert!(matches!(find.to_criteria(), Err(FindMemoError::FilterParse)));
    assert!(parse_cel("1 +").is_none());
    assert!(matches!(parse_cel("pinned"), Some(CelExpr::Ident(ref s)) if s == "pinned"));
    let find = FindMemo { filter: String::new(), ..Default::default() };
    let (sql, params) = find.to_criteria().ok().unwrap();
    assert!(!sql.contains("pinned IS TRUE"));
    assert!(params.is_empty());
}

#[test]
fn blank_filter_condition_is_left_out() {
    assert!(blank_text(" \t"));
    assert!(!blank_text(" x "));
    let find = FindMemo::default();
    let (sql, params) = find.to_criteria_with(&Some(CelExpr::Ident(" ".to_string())));
    assert!(!sql.contains("WHERE"));
    assert!(params.is_empty());
}

#[test]
fn repeated_search_words_share_one_condition() {
    let find = FindMemo { content_search: vec!["a".to_string(), "a".to_string()], ..Default::default() };
    let (sql, params) = find.to_criteria().ok().unwrap();
    assert_eq!(sql.matches("memo.content LIKE ?").count(), 1);
    assert_eq!(params, vec![SqlValue::Text("%a%".to_string()), SqlValue::Text("%a%".to_string())]);
}

#[test]
fn update_statement_text() {
    let update = memos::model::memo::UpdateMemo {
        id: 9,
        creator_id: 1,
        content: Some("new".to_string()),
        visibility: None,
        row_status: None,
        pinned: Some(true),
        payload: None,
    };
    let (sql, _) = update.to_criteria(None);
    assert_eq!(sql, "UPDATE memo SET content = ?, pinned = ? WHERE id = ?");
}

#[test]
fn insert_statement_text() {
    let memo = memos::model::memo::CreateMemo {
        creator_id: 3,
        uid: "u1".to_string(),
        content: "hello".to_string(),
        visibility: memos::pb::memos_api_v2::Visibility::Protected,
        payload: memos::model::gen::MemoPayload::default(),
    };
    let (sql, _) = memo.to_criteria("{}".to_string());
    assert_eq!(
        sql,
        "INSERT INTO memo (creator_id, uid, content, visibility, payload) VALUES (?, ?, ?, ?, ?) \
         RETURNING id, uid, creator_id, created_ts, updated_ts, row_status, content, visibility, payload"
    );
}

#[test]
fn select_statement_text() {
    let find = FindMemo {
        id: Some(5),
        direction: memos::api::v1::gen::Direction::Desc,
        page_token: Some(memos::api::v1::gen::PageToken { limit: 10, offset: 20 }),
        ..Default::default()
    };
    let (sql, params) = find.to_criteria().ok().unwrap();
    assert_eq!(
        sql,
        "SELECT memo.id AS id, memo.uid AS uid, memo.creator_id AS creator_id, memo.created_ts AS created_ts, \
         memo.updated_ts AS updated_ts, memo.row_status AS state, memo.visibility AS visibility, \
         memo.pinned AS pinned, memo.payload AS payload, memo.content AS content FROM memo \
         LEFT JOIN JSON_EACH(memo.payload, '$.tags') WHERE memo.id = ? ORDER BY created_ts DESC LIMIT 11 OFFSET 20"
    );
    assert_eq!(params, vec![SqlValue::Integer(5)]);
}

#[test]
fn filters_the_cel_parser_could_fail_on_are_refused() {
    for filter in [r#"content.contains("a\n")"#, "99999999999999999999 > 1", "1 + -0x1u == 1"] {
        assert!(!cel_safe_text(filter), "{filter}");
        let find = FindMemo { filter: filter.to_string(), ..Default::default() };
        assert!(matches!(find.to_criteria(), Err(FindMemoError::FilterUnsupported)), "{filter}");
    }
    for filter in ["12345678901234567 > 1", "0x7fffffffffffff == x", "tag in [\"a\"] && pinned", "abc123456789012345678901 == 1"] {
        assert!(cel_safe_text(filter), "{filter}");
    }
    let find = FindMemo { filter: "12345678901234567 > 1".to_string(), ..Default::default() };
    assert!(find.to_criteria().is_ok());
}

#[test]
fn session_in_memory_is_the_answer() {
    let table = SessionTable::new();
    let (state, action) = load_start::<u32>();
    assert!(matches!(action, LoadAction::LookUpCache));
    let (state, action) = table.load_step(state, LoadEvent::Cached(Some(7u32)));
    assert!(matches!(state, LoadState::Done));
    assert!(matches!(action, LoadAction::Reply(Ok(Some(7)))));
}

#[test]
fn session_is_read_decoded_and_kept() {
    let table = SessionTable::new();
    let (state, _) = load_start::<u32>();
    let (state, action) = table.load_step(state, LoadEvent::<u32>::Cached(None));
    match action {
        LoadAction::Query(sql) => assert!(sql.contains("select data from sessions")),
        _ => panic!("a query is owed"),
    }
    let (state, action) = table.load_step(state, LoadEvent::<u32>::Queried(Ok(Some(vec![1, 2]))));
    assert!(matches!(action, LoadAction::Decode(ref d) if d == &vec![1u8, 2]));
    let (state, action) = table.load_step(state, LoadEvent::Decoded(Ok(9u32)));
    assert!(matches!(action, LoadAction::SaveCache(9)));
    let (state, action) = table.load_step(state, LoadEvent::Saved(9u32));
    assert!(matches!(state, LoadState::Done));
    assert!(matches!(action, LoadAction::Reply(Ok(Some(9)))));
}

#[test]
fn session_load_failures() {
    let table = SessionTable::new();
    let (state, _) = load_start::<u32>();
    let (state, _) = table.load_step(state, LoadEvent::<u32>::Cached(None));
    let (_, action) = table.load_step(state, LoadEvent::<u32>::Queried(Err("down".to_string())));
    match action {
        LoadAction::Reply(Err(StoreError::Execute { source })) => assert_eq!(source, "down"),
        _ => panic!("an error is owed"),
    }
    let (state, _) = load_start::<u32>();
    let (state, _) = table.load_step(state, LoadEvent::<u32>::Cached(None));
    let (_, action) = table.load_step(state, LoadEvent::<u32>::Queried(Ok(None)));
    assert!(matches!(action, LoadAction::Reply(Ok(None))));
    let (state, _) = load_start::<u32>();
    let (state, _) = table.load_step(state, LoadEvent::<u32>::Cached(None));
    let (state, _) = table.load_step(state, LoadEvent::<u32>::Queried(Ok(Some(vec![0]))));
    let (_, action) = table.load_step(state, LoadEvent::<u32>::Decoded(Err("bad".to_string())));
    match action {
        LoadAction::Reply(Err(StoreError::DecodeSession { source })) => assert_eq!(source, "bad"),
        _ => panic!("an error is owed"),
    }
}

#[test]
fn failed_login_is_no_user() {
    assert!(matches!(authenticated::<u8, String>(Ok(3)), Ok(Some(3))));
    assert!(matches!(authenticated::<u8, String>(Err(SignInError::Login)), Ok(None)));
    match authenticated::<u8, String>(Err(SignInError::Other("db".to_string()))) {
        Err(e) => assert_eq!(e, "db"),
        _ => panic!("the failure passes on"),
    }
}
