use memos::api::system::SystemSettingKey;
use memos::ctrl::auth::{Access, AuthService, Backend};
use memos::ctrl::error_body;
use memos::ctrl::memo::{scope_find_memo, Error as MemoError};
use memos::ctrl::resource::{
    check_upload_size, default_max_upload_size, max_upload_size_bytes, upload_limit_fits, wants_thumbnail,
    Error as UploadError,
};
use memos::ctrl::store::{is_valid_table_name, Error as StoreError, SessionTable};
use memos::api::system::SystemSetting;
use memos::api::v1::resource::CreateResourceResponse;
use memos::hybrid::{combine_readiness, index_routes, public_paths, route, HybridReadiness, Readiness, Route};
use memos::model::memo::FindMemo;
use memos::pb::memos_api_v2::{Resource, Visibility};
use memos::pb::Timestamp;
use std::sync::Arc;

#[test]
fn public_paths_pass_without_user() {
    let auth = AuthService { inner: (), public_path: public_paths() };
    assert_eq!(auth.access("/memos.api.v1.MemoService/ListMemos", false), Access::Forward);
    assert_eq!(auth.access("/memos.api.v1.MemoService/CreateMemo", false), Access::Unauthorized);
    assert_eq!(auth.access("/memos.api.v1.MemoService/CreateMemo", true), Access::Forward);
    assert!(auth.is_public("/memos.api.v1.AuthService/SignIn"));
    assert!(!auth.is_public("/memos.api.v1.AuthService/SignIn/"));
}

#[test]
fn public_path_list() {
    let paths = public_paths();
    assert_eq!(paths.len(), 7);
    assert_eq!(paths[0], "/memos.api.v1.AuthService/SignIn");
    assert_eq!(paths[6], "/memos.api.v1.WorkspaceService/GetWorkspaceProfile");
    assert_eq!(index_routes(), vec!["/home", "/auth", "/explore", "/resources", "/setting"]);
}

#[test]
fn backend_holds_its_service() {
    let backend = Backend::new(Arc::new(5));
    assert_eq!(**backend.svc(), 5);
}

#[test]
fn grpc_web_requests_go_to_grpc() {
    assert_eq!(route(Some("application/grpc-web")), Route::Grpc);
    assert_eq!(route(Some("application/grpc-web+proto")), Route::Grpc);
    assert_eq!(route(Some("application/json")), Route::Rest);
    assert_eq!(route(None), Route::Rest);
}

#[test]
fn readiness_of_both_services() {
    assert_eq!(combine_readiness(Readiness::Ready, Readiness::Ready), HybridReadiness::Ready);
    assert_eq!(combine_readiness(Readiness::Failed, Readiness::Failed), HybridReadiness::GrpcFailed);
    assert_eq!(combine_readiness(Readiness::Failed, Readiness::Pending), HybridReadiness::RestFailed);
    assert_eq!(combine_readiness(Readiness::Pending, Readiness::Ready), HybridReadiness::Pending);
    assert_eq!(combine_readiness(Readiness::Ready, Readiness::Pending), HybridReadiness::Pending);
}

#[test]
fn error_response_body() {
    assert_eq!(
        error_body("401 Unauthorized", "bad"),
        r#"{"error": "code=401 Unauthorized, message=bad", "message": "bad"}"#
    );
}

#[test]
fn table_names() {
    assert!(is_valid_table_name("sessions_2-b"));
    assert!(!is_valid_table_name(""));
    assert!(!is_valid_table_name("a b"));
    assert!(!is_valid_table_name("t;drop"));
}

#[test]
fn session_table_statements() {
    let t = SessionTable::new();
    assert_eq!(t.table_name(), "sessions");
    let t = t.with_table_name("web_sessions").ok().unwrap();
    assert_eq!(
        t.load_sql(),
        "\n            select data from web_sessions\n            where id = ? and expiry_date > ?\n            "
    );
    assert_eq!(t.delete_sql(), "\n            delete from web_sessions where id = ?\n            ");
    assert!(t.migrate_sql().contains("create table if not exists web_sessions\n"));
    assert!(t.save_sql().contains("insert into web_sessions\n"));
    assert!(t.delete_expired_sql().contains("where expiry_date < datetime('now', 'utc')"));
    match SessionTable::new().with_table_name("no way") {
        Err(e @ StoreError::InvalidTable { .. }) => assert_eq!(
            e.message(),
            "Invalid table name 'no way'. Table names must be alphanumeric and may contain hyphens or underscores."
        ),
        _ => panic!("expected an invalid table"),
    }
    assert_eq!(StoreError::Execute { source: "x".to_string() }.message(), "Execute failed: x");
}

#[test]
fn upload_limits() {
    assert_eq!(max_upload_size_bytes("2"), 2 * 1024 * 1024);
    assert_eq!(max_upload_size_bytes("lots"), 32 * 1024 * 1024);
    assert!(upload_limit_fits("32"));
    assert!(!upload_limit_fits(&usize::MAX.to_string()));
    let setting = default_max_upload_size();
    assert_eq!(setting.name, SystemSettingKey::MaxUploadSizeMiB);
    assert!(check_upload_size(&setting, 1024).is_ok());
    let small = SystemSetting { name: SystemSettingKey::MaxUploadSizeMiB, value: "1".to_string(), description: String::new() };
    assert!(check_upload_size(&small, 1024 * 1024 - 1).is_ok());
    match check_upload_size(&small, 1024 * 1024) {
        Err(e @ UploadError::FileSizeLimit { .. }) => {
            assert_eq!(e.message(), "File size exceeds allowed limit of 1 MiB")
        },
        _ => panic!("expected a size error"),
    }
    assert_eq!(UploadError::UploadFileNotFound.message(), "Upload file not found");
}

#[test]
fn thumbnails_only_of_images() {
    assert!(wants_thumbnail(&Some("1".to_string()), "image/png"));
    assert!(!wants_thumbnail(&Some("1".to_string()), "text/plain"));
    assert!(!wants_thumbnail(&Some("true".to_string()), "image/png"));
    assert!(!wants_thumbnail(&None, "image/png"));
}

#[test]
fn upload_answer() {
    let res = Resource {
        id: 3,
        created_ts: Some(Timestamp { seconds: 50, nanos: 0 }),
        filename: "f".to_string(),
        size: 9,
        ..Default::default()
    };
    let r = CreateResourceResponse::from_created(res, 7);
    assert_eq!((r.id, r.creator_id, r.created_ts, r.updated_ts, r.size), (3, 7, 50, 50, 9));
    let r = CreateResourceResponse::from_created(Resource::default(), 1);
    assert_eq!(r.created_ts, 0);
}

#[test]
fn memo_listing_scope() {
    let mine = scope_find_memo(FindMemo::default(), Some(2), Some(2), Some("true")).ok().unwrap();
    assert_eq!(mine.creator_id, Some(2));
    assert_eq!(mine.visibility_list, vec![Visibility::Public, Visibility::Protected, Visibility::Private]);
    assert!(mine.order_by_updated_ts);
    let other = scope_find_memo(FindMemo::default(), Some(3), Some(2), Some("false")).ok().unwrap();
    assert_eq!(other.visibility_list, vec![Visibility::Public, Visibility::Protected]);
    assert!(!other.order_by_updated_ts);
    let anonymous = scope_find_memo(FindMemo::default(), Some(3), None, None).ok().unwrap();
    assert_eq!(anonymous.visibility_list, vec![Visibility::Public]);
    match scope_find_memo(FindMemo::default(), None, None, None) {
        Err(e @ MemoError::MissingUser) => assert_eq!(e.message(), "Missing user to find memo"),
        _ => panic!("expected a missing user"),
    }
}
