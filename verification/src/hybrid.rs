use vstd::prelude::*;

use crate::text::str_eq;

verus! {

broadcast use vstd::string::group_string_axioms;

/// The gRPC paths that answer without a signed-in user.
pub open spec fn public_path_list() -> Seq<Seq<char>> {
    seq![
        "/memos.api.v1.AuthService/SignIn"@,
        "/memos.api.v1.AuthService/GetAuthStatus"@,
        "/memos.api.v1.MemoService/ListMemos"@,
        "/memos.api.v1.MemoService/ListMemoRelations"@,
        "/memos.api.v1.MemoService/ListMemoResources"@,
        "/memos.api.v1.WorkspaceSettingService/GetWorkspaceSetting"@,
        "/memos.api.v1.WorkspaceService/GetWorkspaceProfile"@,
    ]
}

/// The gRPC paths that answer without a signed-in user, in order.
pub fn public_paths() -> (r: Vec<String>)
    ensures
        r@.map_values(|p: String| p@) == public_path_list(),
{
    let r = vec![
        "/memos.api.v1.AuthService/SignIn".to_string(),
        "/memos.api.v1.AuthService/GetAuthStatus".to_string(),
        "/memos.api.v1.MemoService/ListMemos".to_string(),
        "/memos.api.v1.MemoService/ListMemoRelations".to_string(),
        "/memos.api.v1.MemoService/ListMemoResources".to_string(),
        "/memos.api.v1.WorkspaceSettingService/GetWorkspaceSetting".to_string(),
        "/memos.api.v1.WorkspaceService/GetWorkspaceProfile".to_string(),
    ];
    assert(r@.map_values(|p: String| p@) =~= public_path_list());
    r
}

/// The paths of the web application that are answered with its index page.
pub open spec fn index_route_list() -> Seq<Seq<char>> {
    seq!["/home"@, "/auth"@, "/explore"@, "/resources"@, "/setting"@]
}

/// The paths of the web application that are answered with its index page, in order.
pub fn index_routes() -> (r: Vec<&'static str>)
    ensures
        r@.map_values(|p: &str| p@) == index_route_list(),
{
    let r = vec!["/home", "/auth", "/explore", "/resources", "/setting"];
    assert(r@.map_values(|p: &str| p@) =~= index_route_list());
    r
}

/// The service that answers a request.
#[derive(Clone, Copy, Debug, PartialEq, Eq, Structural)]
pub enum Route {
    /// The REST routes and the web application.
    Rest,
    /// The gRPC-Web services.
    Grpc,
}

/// The service for a request whose `Content-Type` header is `content_type` (none when
/// the header is missing or is not text): gRPC-Web requests go to the gRPC services.
pub open spec fn route_for(content_type: Option<Seq<char>>) -> Route {
    match content_type {
        Some(t) => if t == "application/grpc-web+proto"@ || t == "application/grpc-web"@ {
            Route::Grpc
        } else {
            Route::Rest
        },
        None => Route::Rest,
    }
}

/// The service that answers a request with the `Content-Type` header `content_type`.
pub fn route(content_type: Option<&str>) -> (r: Route)
    ensures
        r == route_for(
            match content_type {
                Some(t) => Some(t@),
                None => None,
            },
        ),
{
    match content_type {
        Some(t) => {
            if str_eq(t, "application/grpc-web+proto") || str_eq(t, "application/grpc-web") {
                Route::Grpc
            } else {
                Route::Rest
            }
        },
        None => Route::Rest,
    }
}

/// Whether one service can take a request.
#[derive(Clone, Copy, Debug, PartialEq, Eq, Structural)]
pub enum Readiness {
    Ready,
    Failed,
    Pending,
}

/// Whether the two services together can take a request.
#[derive(Clone, Copy, Debug, PartialEq, Eq, Structural)]
pub enum HybridReadiness {
    Ready,
    /// The REST service failed; its error is the answer.
    RestFailed,
    /// The gRPC service failed; its error is the answer.
    GrpcFailed,
    Pending,
}

/// Both services are ready: ready. Otherwise a failure of the gRPC service comes first,
/// then one of the REST service, and else the pair is pending.
pub open spec fn combined(rest: Readiness, grpc: Readiness) -> HybridReadiness {
    if rest == Readiness::Ready && grpc == Readiness::Ready {
        HybridReadiness::Ready
    } else if grpc == Readiness::Failed {
        HybridReadiness::GrpcFailed
    } else if rest == Readiness::Failed {
        HybridReadiness::RestFailed
    } else {
        HybridReadiness::Pending
    }
}

/// Whether the two services together can take a request.
pub fn combine_readiness(rest: Readiness, grpc: Readiness) -> (r: HybridReadiness)
    ensures
        r == combined(rest, grpc),
{
    match (rest, grpc) {
        (Readiness::Ready, Readiness::Ready) => HybridReadiness::Ready,
        (_, Readiness::Failed) => HybridReadiness::GrpcFailed,
        (Readiness::Failed, _) => HybridReadiness::RestFailed,
        (_, Readiness::Pending) => HybridReadiness::Pending,
        (Readiness::Pending, _) => HybridReadiness::Pending,
    }
}

/// The pair is ready exactly when both services are, and it fails exactly when one of
/// them fails.
pub proof fn lemma_combined(rest: Readiness, grpc: Readiness)
    ensures
        (combined(rest, grpc) == HybridReadiness::Ready) <==> (rest == Readiness::Ready && grpc
            == Readiness::Ready),
        (combined(rest, grpc) == HybridReadiness::RestFailed || combined(rest, grpc)
            == HybridReadiness::GrpcFailed) <==> (rest == Readiness::Failed || grpc == Readiness::Failed),
{
}

} // verus!
