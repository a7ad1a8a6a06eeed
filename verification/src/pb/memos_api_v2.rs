use vstd::prelude::*;

use super::{FieldMask, Timestamp};
use crate::text::str_eq;

verus! {

broadcast use vstd::string::group_string_axioms;

/// Rows that can be archived carry this status.
#[derive(Clone, Copy, Debug, PartialEq, Eq, Hash, Structural)]
pub enum RowStatus {
    Unspecified,
    Active,
    Archived,
}

/// The name that the protobuf definition gives to each value of `RowStatus`.
pub open spec fn row_status_name(v: RowStatus) -> Seq<char> {
    match v {
        RowStatus::Unspecified => "ROW_STATUS_UNSPECIFIED"@,
        RowStatus::Active => "ACTIVE"@,
        RowStatus::Archived => "ARCHIVED"@,
    }
}

/// The value of `RowStatus` that the protobuf definition names `s`, if any.
pub open spec fn row_status_from_name(s: Seq<char>) -> Option<RowStatus> {
    if s == "ROW_STATUS_UNSPECIFIED"@ {
        Some(RowStatus::Unspecified)
    } else if s == "ACTIVE"@ {
        Some(RowStatus::Active)
    } else if s == "ARCHIVED"@ {
        Some(RowStatus::Archived)
    } else {
        None
    }
}

/// The number that the protobuf definition gives to each value of `RowStatus`.
pub open spec fn row_status_number(v: RowStatus) -> i32 {
    match v {
        RowStatus::Unspecified => 0,
        RowStatus::Active => 1,
        RowStatus::Archived => 2,
    }
}

impl RowStatus {
    /// String value of the enum field names used in the protobuf definition.
    pub fn as_str_name(&self) -> (r: &'static str)
        ensures
            r@ == row_status_name(*self),
    {
        match self {
            RowStatus::Unspecified => "ROW_STATUS_UNSPECIFIED",
            RowStatus::Active => "ACTIVE",
            RowStatus::Archived => "ARCHIVED",
        }
    }

    /// Creates an enum value from a field name used in the protobuf definition.
    pub fn from_str_name(value: &str) -> (r: Option<Self>)
        ensures
            r == row_status_from_name(value@),
    {
        if str_eq(value, "ROW_STATUS_UNSPECIFIED") {
            Some(RowStatus::Unspecified)
        } else if str_eq(value, "ACTIVE") {
            Some(RowStatus::Active)
        } else if str_eq(value, "ARCHIVED") {
            Some(RowStatus::Archived)
        } else {
            None
        }
    }

    /// The number of this value in the protobuf definition.
    pub fn as_i32(&self) -> (r: i32)
        ensures
            r == row_status_number(*self),
    {
        match self {
            RowStatus::Unspecified => 0,
            RowStatus::Active => 1,
            RowStatus::Archived => 2,
        }
    }

    /// The value numbered `value` in the protobuf definition, if any.
    pub fn from_i32(value: i32) -> (r: Option<Self>)
        ensures
            r matches Some(v) ==> row_status_number(v) == value,
            r is None ==> forall|v: RowStatus| row_status_number(v) != value,
    {
        if value == 0 {
            Some(RowStatus::Unspecified)
        } else if value == 1 {
            Some(RowStatus::Active)
        } else if value == 2 {
            Some(RowStatus::Archived)
        } else {
            None
        }
    }
}

impl Default for RowStatus {
    fn default() -> (r: Self)
        ensures
            r == RowStatus::Unspecified,
    {
        RowStatus::Unspecified
    }
}

/// Reading back the name of a value gives the value; a name names one value only.
pub proof fn lemma_row_status_names(v: RowStatus, s: Seq<char>)
    ensures
        row_status_from_name(row_status_name(v)) == Some(v),
        row_status_from_name(s) == Some(v) ==> s == row_status_name(v),
{
    reveal_strlit("ROW_STATUS_UNSPECIFIED");
    reveal_strlit("ACTIVE");
    reveal_strlit("ARCHIVED");
    assert("ROW_STATUS_UNSPECIFIED"@.len() != "ACTIVE"@.len());
    assert("ROW_STATUS_UNSPECIFIED"@.len() != "ARCHIVED"@.len());
    assert("ACTIVE"@.len() != "ARCHIVED"@.len());
}

/// The role of a user.
#[derive(Clone, Copy, Debug, PartialEq, Eq, Hash, Structural)]
pub enum Role {
    Unspecified,
    Host,
    Admin,
    User,
}

/// The name that the protobuf definition gives to each value of `Role`.
pub open spec fn role_name(v: Role) -> Seq<char> {
    match v {
        Role::Unspecified => "ROLE_UNSPECIFIED"@,
        Role::Host => "HOST"@,
        Role::Admin => "ADMIN"@,
        Role::User => "USER"@,
    }
}

/// The value of `Role` that the protobuf definition names `s`, if any.
pub open spec fn role_from_name(s: Seq<char>) -> Option<Role> {
    if s == "ROLE_UNSPECIFIED"@ {
        Some(Role::Unspecified)
    } else if s == "HOST"@ {
        Some(Role::Host)
    } else if s == "ADMIN"@ {
        Some(Role::Admin)
    } else if s == "USER"@ {
        Some(Role::User)
    } else {
        None
    }
}

/// The number that the protobuf definition gives to each value of `Role`.
pub open spec fn role_number(v: Role) -> i32 {
    match v {
        Role::Unspecified => 0,
        Role::Host => 1,
        Role::Admin => 2,
        Role::User => 3,
    }
}

impl Role {
    /// String value of the enum field names used in the protobuf definition.
    pub fn as_str_name(&self) -> (r: &'static str)
        ensures
            r@ == role_name(*self),
    {
        match self {
            Role::Unspecified => "ROLE_UNSPECIFIED",
            Role::Host => "HOST",
            Role::Admin => "ADMIN",
            Role::User => "USER",
        }
    }

    /// Creates an enum value from a field name used in the protobuf definition.
    pub fn from_str_name(value: &str) -> (r: Option<Self>)
        ensures
            r == role_from_name(value@),
    {
        if str_eq(value, "ROLE_UNSPECIFIED") {
            Some(Role::Unspecified)
        } else if str_eq(value, "HOST") {
            Some(Role::Host)
        } else if str_eq(value, "ADMIN") {
            Some(Role::Admin)
        } else if str_eq(value, "USER") {
            Some(Role::User)
        } else {
            None
        }
    }

    /// The number of this value in the protobuf definition.
    pub fn as_i32(&self) -> (r: i32)
        ensures
            r == role_number(*self),
    {
        match self {
            Role::Unspecified => 0,
            Role::Host => 1,
            Role::Admin => 2,
            Role::User => 3,
        }
    }

    /// The value numbered `value` in the protobuf definition, if any.
    pub fn from_i32(value: i32) -> (r: Option<Self>)
        ensures
            r matches Some(v) ==> role_number(v) == value,
            r is None ==> forall|v: Role| role_number(v) != value,
    {
        if value == 0 {
            Some(Role::Unspecified)
        } else if value == 1 {
            Some(Role::Host)
        } else if value == 2 {
            Some(Role::Admin)
        } else if value == 3 {
            Some(Role::User)
        } else {
            None
        }
    }
}

impl Default for Role {
    fn default() -> (r: Self)
        ensures
            r == Role::Unspecified,
    {
        Role::Unspecified
    }
}

/// Reading back the name of a value gives the value; a name names one value only.
pub proof fn lemma_role_names(v: Role, s: Seq<char>)
    ensures
        role_from_name(role_name(v)) == Some(v),
        role_from_name(s) == Some(v) ==> s == role_name(v),
{
    reveal_strlit("ROLE_UNSPECIFIED");
    reveal_strlit("HOST");
    reveal_strlit("ADMIN");
    reveal_strlit("USER");
    assert("ROLE_UNSPECIFIED"@.len() != "HOST"@.len());
    assert("ROLE_UNSPECIFIED"@.len() != "ADMIN"@.len());
    assert("ROLE_UNSPECIFIED"@.len() != "USER"@.len());
    assert("HOST"@.len() != "ADMIN"@.len());
    assert("HOST"@[0] != "USER"@[0]);
    assert("ADMIN"@.len() != "USER"@.len());
}

/// Who may see a memo.
#[derive(Clone, Copy, Debug, PartialEq, Eq, Hash, Structural)]
pub enum Visibility {
    Unspecified,
    Private,
    Protected,
    Public,
}

/// The name that the protobuf definition gives to each value of `Visibility`.
pub open spec fn visibility_name(v: Visibility) -> Seq<char> {
    match v {
        Visibility::Unspecified => "VISIBILITY_UNSPECIFIED"@,
        Visibility::Private => "PRIVATE"@,
        Visibility::Protected => "PROTECTED"@,
        Visibility::Public => "PUBLIC"@,
    }
}

/// The value of `Visibility` that the protobuf definition names `s`, if any.
pub open spec fn visibility_from_name(s: Seq<char>) -> Option<Visibility> {
    if s == "VISIBILITY_UNSPECIFIED"@ {
        Some(Visibility::Unspecified)
    } else if s == "PRIVATE"@ {
        Some(Visibility::Private)
    } else if s == "PROTECTED"@ {
        Some(Visibility::Protected)
    } else if s == "PUBLIC"@ {
        Some(Visibility::Public)
    } else {
        None
    }
}

/// The number that the protobuf definition gives to each value of `Visibility`.
pub open spec fn visibility_number(v: Visibility) -> i32 {
    match v {
        Visibility::Unspecified => 0,
        Visibility::Private => 1,
        Visibility::Protected => 2,
        Visibility::Public => 3,
    }
}

impl Visibility {
    /// String value of the enum field names used in the protobuf definition.
    pub fn as_str_name(&self) -> (r: &'static str)
        ensures
            r@ == visibility_name(*self),
    {
        match self {
            Visibility::Unspecified => "VISIBILITY_UNSPECIFIED",
            Visibility::Private => "PRIVATE",
            Visibility::Protected => "PROTECTED",
            Visibility::Public => "PUBLIC",
        }
    }

    /// Creates an enum value from a field name used in the protobuf definition.
    pub fn from_str_name(value: &str) -> (r: Option<Self>)
        ensures
            r == visibility_from_name(value@),
    {
        if str_eq(value, "VISIBILITY_UNSPECIFIED") {
            Some(Visibility::Unspecified)
        } else if str_eq(value, "PRIVATE") {
            Some(Visibility::Private)
        } else if str_eq(value, "PROTECTED") {
            Some(Visibility::Protected)
        } else if str_eq(value, "PUBLIC") {
            Some(Visibility::Public)
        } else {
            None
        }
    }

    /// The number of this value in the protobuf definition.
    pub fn as_i32(&self) -> (r: i32)
        ensures
            r == visibility_number(*self),
    {
        match self {
            Visibility::Unspecified => 0,
            Visibility::Private => 1,
            Visibility::Protected => 2,
            Visibility::Public => 3,
        }
    }

    /// The value numbered `value` in the protobuf definition, if any.
    pub fn from_i32(value: i32) -> (r: Option<Self>)
        ensures
            r matches Some(v) ==> visibility_number(v) == value,
            r is None ==> forall|v: Visibility| visibility_number(v) != value,
    {
        if value == 0 {
            Some(Visibility::Unspecified)
        } else if value == 1 {
            Some(Visibility::Private)
        } else if value == 2 {
            Some(Visibility::Protected)
        } else if value == 3 {
            Some(Visibility::Public)
        } else {
            None
        }
    }
}

impl Default for Visibility {
    fn default() -> (r: Self)
        ensures
            r == Visibility::Unspecified,
    {
        Visibility::Unspecified
    }
}

/// Reading back the name of a value gives the value; a name names one value only.
pub proof fn lemma_visibility_names(v: Visibility, s: Seq<char>)
    ensures
        visibility_from_name(visibility_name(v)) == Some(v),
        visibility_from_name(s) == Some(v) ==> s == visibility_name(v),
{
    reveal_strlit("VISIBILITY_UNSPECIFIED");
    reveal_strlit("PRIVATE");
    reveal_strlit("PROTECTED");
    reveal_strlit("PUBLIC");
    assert("VISIBILITY_UNSPECIFIED"@.len() != "PRIVATE"@.len());
    assert("VISIBILITY_UNSPECIFIED"@.len() != "PROTECTED"@.len());
    assert("VISIBILITY_UNSPECIFIED"@.len() != "PUBLIC"@.len());
    assert("PRIVATE"@.len() != "PROTECTED"@.len());
    assert("PRIVATE"@.len() != "PUBLIC"@.len());
    assert("PROTECTED"@.len() != "PUBLIC"@.len());
}

/// Whether an inbox message has been read.
#[derive(Clone, Copy, Debug, PartialEq, Eq, Hash, Structural)]
pub enum Status {
    Unspecified,
    Unread,
    Archived,
}

/// The name that the protobuf definition gives to each value of `Status`.
pub open spec fn status_name(v: Status) -> Seq<char> {
    match v {
        Status::Unspecified => "STATUS_UNSPECIFIED"@,
        Status::Unread => "UNREAD"@,
        Status::Archived => "ARCHIVED"@,
    }
}

/// The value of `Status` that the protobuf definition names `s`, if any.
pub open spec fn status_from_name(s: Seq<char>) -> Option<Status> {
    if s == "STATUS_UNSPECIFIED"@ {
        Some(Status::Unspecified)
    } else if s == "UNREAD"@ {
        Some(Status::Unread)
    } else if s == "ARCHIVED"@ {
        Some(Status::Archived)
    } else {
        None
    }
}

/// The number that the protobuf definition gives to each value of `Status`.
pub open spec fn status_number(v: Status) -> i32 {
    match v {
        Status::Unspecified => 0,
        Status::Unread => 1,
        Status::Archived => 2,
    }
}

impl Status {
    /// String value of the enum field names used in the protobuf definition.
    pub fn as_str_name(&self) -> (r: &'static str)
        ensures
            r@ == status_name(*self),
    {
        match self {
            Status::Unspecified => "STATUS_UNSPECIFIED",
            Status::Unread => "UNREAD",
            Status::Archived => "ARCHIVED",
        }
    }

    /// Creates an enum value from a field name used in the protobuf definition.
    pub fn from_str_name(value: &str) -> (r: Option<Self>)
        ensures
            r == status_from_name(value@),
    {
        if str_eq(value, "STATUS_UNSPECIFIED") {
            Some(Status::Unspecified)
        } else if str_eq(value, "UNREAD") {
            Some(Status::Unread)
        } else if str_eq(value, "ARCHIVED") {
            Some(Status::Archived)
        } else {
            None
        }
    }

    /// The number of this value in the protobuf definition.
    pub fn as_i32(&self) -> (r: i32)
        ensures
            r == status_number(*self),
    {
        match self {
            Status::Unspecified => 0,
            Status::Unread => 1,
            Status::Archived => 2,
        }
    }

    /// The value numbered `value` in the protobuf definition, if any.
    pub fn from_i32(value: i32) -> (r: Option<Self>)
        ensures
            r matches Some(v) ==> status_number(v) == value,
            r is None ==> forall|v: Status| status_number(v) != value,
    {
        if value == 0 {
            Some(Status::Unspecified)
        } else if value == 1 {
            Some(Status::Unread)
        } else if value == 2 {
            Some(Status::Archived)
        } else {
            None
        }
    }
}

impl Default for Status {
    fn default() -> (r: Self)
        ensures
            r == Status::Unspecified,
    {
        Status::Unspecified
    }
}

/// Reading back the name of a value gives the value; a name names one value only.
pub proof fn lemma_status_names(v: Status, s: Seq<char>)
    ensures
        status_from_name(status_name(v)) == Some(v),
        status_from_name(s) == Some(v) ==> s == status_name(v),
{
    reveal_strlit("STATUS_UNSPECIFIED");
    reveal_strlit("UNREAD");
    reveal_strlit("ARCHIVED");
    assert("STATUS_UNSPECIFIED"@.len() != "UNREAD"@.len());
    assert("STATUS_UNSPECIFIED"@.len() != "ARCHIVED"@.len());
    assert("UNREAD"@.len() != "ARCHIVED"@.len());
}

/// What an inbox message is about.
#[derive(Clone, Copy, Debug, PartialEq, Eq, Hash, Structural)]
pub enum Type {
    Unspecified,
    MemoComment,
    VersionUpdate,
}

/// The name that the protobuf definition gives to each value of `Type`.
pub open spec fn inbox_type_name(v: Type) -> Seq<char> {
    match v {
        Type::Unspecified => "TYPE_UNSPECIFIED"@,
        Type::MemoComment => "TYPE_MEMO_COMMENT"@,
        Type::VersionUpdate => "TYPE_VERSION_UPDATE"@,
    }
}

/// The value of `Type` that the protobuf definition names `s`, if any.
pub open spec fn inbox_type_from_name(s: Seq<char>) -> Option<Type> {
    if s == "TYPE_UNSPECIFIED"@ {
        Some(Type::Unspecified)
    } else if s == "TYPE_MEMO_COMMENT"@ {
        Some(Type::MemoComment)
    } else if s == "TYPE_VERSION_UPDATE"@ {
        Some(Type::VersionUpdate)
    } else {
        None
    }
}

/// The number that the protobuf definition gives to each value of `Type`.
pub open spec fn inbox_type_number(v: Type) -> i32 {
    match v {
        Type::Unspecified => 0,
        Type::MemoComment => 1,
        Type::VersionUpdate => 2,
    }
}

impl Type {
    /// String value of the enum field names used in the protobuf definition.
    pub fn as_str_name(&self) -> (r: &'static str)
        ensures
            r@ == inbox_type_name(*self),
    {
        match self {
            Type::Unspecified => "TYPE_UNSPECIFIED",
            Type::MemoComment => "TYPE_MEMO_COMMENT",
            Type::VersionUpdate => "TYPE_VERSION_UPDATE",
        }
    }

    /// Creates an enum value from a field name used in the protobuf definition.
    pub fn from_str_name(value: &str) -> (r: Option<Self>)
        ensures
            r == inbox_type_from_name(value@),
    {
        if str_eq(value, "TYPE_UNSPECIFIED") {
            Some(Type::Unspecified)
        } else if str_eq(value, "TYPE_MEMO_COMMENT") {
            Some(Type::MemoComment)
        } else if str_eq(value, "TYPE_VERSION_UPDATE") {
            Some(Type::VersionUpdate)
        } else {
            None
        }
    }

    /// The number of this value in the protobuf definition.
    pub fn as_i32(&self) -> (r: i32)
        ensures
            r == inbox_type_number(*self),
    {
        match self {
            Type::Unspecified => 0,
            Type::MemoComment => 1,
            Type::VersionUpdate => 2,
        }
    }

    /// The value numbered `value` in the protobuf definition, if any.
    pub fn from_i32(value: i32) -> (r: Option<Self>)
        ensures
            r matches Some(v) ==> inbox_type_number(v) == value,
            r is None ==> forall|v: Type| inbox_type_number(v) != value,
    {
        if value == 0 {
            Some(Type::Unspecified)
        } else if value == 1 {
            Some(Type::MemoComment)
        } else if value == 2 {
            Some(Type::VersionUpdate)
        } else {
            None
        }
    }
}

impl Default for Type {
    fn default() -> (r: Self)
        ensures
            r == Type::Unspecified,
    {
        Type::Unspecified
    }
}

/// Reading back the name of a value gives the value; a name names one value only.
pub proof fn lemma_inbox_type_names(v: Type, s: Seq<char>)
    ensures
        inbox_type_from_name(inbox_type_name(v)) == Some(v),
        inbox_type_from_name(s) == Some(v) ==> s == inbox_type_name(v),
{
    reveal_strlit("TYPE_UNSPECIFIED");
    reveal_strlit("TYPE_MEMO_COMMENT");
    reveal_strlit("TYPE_VERSION_UPDATE");
    assert("TYPE_UNSPECIFIED"@.len() != "TYPE_MEMO_COMMENT"@.len());
    assert("TYPE_UNSPECIFIED"@.len() != "TYPE_VERSION_UPDATE"@.len());
    assert("TYPE_MEMO_COMMENT"@.len() != "TYPE_VERSION_UPDATE"@.len());
}

/// The value that the protobuf numbering gives to `n`, if any.
pub open spec fn visibility_of_number(n: i32) -> Option<Visibility> {
    if exists|v: Visibility| visibility_number(v) == n {
        Some(choose|v: Visibility| visibility_number(v) == n)
    } else {
        None
    }
}

/// The value that the protobuf numbering gives to `n`, if any.
pub open spec fn row_status_of_number(n: i32) -> Option<RowStatus> {
    if exists|v: RowStatus| row_status_number(v) == n {
        Some(choose|v: RowStatus| row_status_number(v) == n)
    } else {
        None
    }
}

/// The value that the protobuf numbering gives to `n`, if any.
pub open spec fn role_of_number(n: i32) -> Option<Role> {
    if exists|v: Role| role_number(v) == n {
        Some(choose|v: Role| role_number(v) == n)
    } else {
        None
    }
}

/// A user as the v2 API shows it.
#[derive(Clone, Debug, Default)]
pub struct User {
    /// The name of the user. Format: users/{username}
    pub name: String,
    pub id: i32,
    pub role: i32,
    pub email: String,
    pub nickname: String,
    pub avatar_url: String,
    pub password: String,
    pub row_status: i32,
    pub create_time: Option<Timestamp>,
    pub update_time: Option<Timestamp>,
}

#[derive(Clone, Debug, Default)]
pub struct GetUserRequest {
    pub name: String,
}

#[derive(Clone, Debug, Default)]
pub struct GetUserResponse {
    pub user: Option<User>,
}

#[derive(Clone, Debug, Default)]
pub struct CreateUserRequest {
    pub user: Option<User>,
}

#[derive(Clone, Debug, Default)]
pub struct CreateUserResponse {
    pub user: Option<User>,
}

#[derive(Clone, Debug, Default)]
pub struct UpdateUserRequest {
    pub user: Option<User>,
    pub update_mask: Option<FieldMask>,
}

#[derive(Clone, Debug, Default)]
pub struct UpdateUserResponse {
    pub user: Option<User>,
}

#[derive(Clone, Debug, Default)]
pub struct UserAccessToken {
    pub access_token: String,
    pub description: String,
    pub issued_at: Option<Timestamp>,
    pub expires_at: Option<Timestamp>,
}

#[derive(Clone, Debug, Default)]
pub struct ListUserAccessTokensRequest {
    pub name: String,
}

#[derive(Clone, Debug, Default)]
pub struct ListUserAccessTokensResponse {
    pub access_tokens: Vec<UserAccessToken>,
}

#[derive(Clone, Debug, Default)]
pub struct CreateUserAccessTokenRequest {
    pub name: String,
    pub description: String,
    pub expires_at: Option<Timestamp>,
}

#[derive(Clone, Debug, Default)]
pub struct CreateUserAccessTokenResponse {
    pub access_token: Option<UserAccessToken>,
}

#[derive(Clone, Debug, Default)]
pub struct DeleteUserAccessTokenRequest {
    pub name: String,
    pub access_token: String,
}

#[derive(Clone, Debug, Default)]
pub struct DeleteUserAccessTokenResponse {}

#[derive(Clone, Debug, Default)]
pub struct SystemInfo {
    pub version: String,
    pub mode: String,
    pub allow_registration: bool,
    pub disable_password_login: bool,
    pub additional_script: String,
    pub additional_style: String,
    pub db_size: i64,
}

#[derive(Clone, Debug, Default)]
pub struct GetSystemInfoRequest {}

#[derive(Clone, Debug, Default)]
pub struct GetSystemInfoResponse {
    pub system_info: Option<SystemInfo>,
}

#[derive(Clone, Debug, Default)]
pub struct UpdateSystemInfoRequest {
    pub system_info: Option<SystemInfo>,
    pub update_mask: Option<FieldMask>,
}

#[derive(Clone, Debug, Default)]
pub struct UpdateSystemInfoResponse {
    pub system_info: Option<SystemInfo>,
}

#[derive(Clone, Debug, Default)]
pub struct Memo {
    pub id: i32,
    pub row_status: i32,
    pub creator_id: i32,
    pub created_ts: i64,
    pub updated_ts: i64,
    pub content: String,
    pub visibility: i32,
    pub pinned: bool,
}

#[derive(Clone, Debug, Default)]
pub struct CreateMemoRequest {
    pub content: String,
    pub visibility: i32,
}

#[derive(Clone, Debug, Default)]
pub struct CreateMemoResponse {
    pub memo: Option<Memo>,
}

#[derive(Clone, Debug, Default)]
pub struct ListMemosRequest {
    pub page: i32,
    pub page_size: i32,
    pub filter: String,
    pub creator_id: Option<i32>,
}

#[derive(Clone, Debug, Default)]
pub struct ListMemosResponse {
    pub memos: Vec<Memo>,
}

#[derive(Clone, Debug, Default)]
pub struct GetMemoRequest {
    pub id: i32,
}

#[derive(Clone, Debug, Default)]
pub struct GetMemoResponse {
    pub memo: Option<Memo>,
}

#[derive(Clone, Debug, Default)]
pub struct CreateMemoCommentRequest {
    pub id: i32,
    pub create: Option<CreateMemoRequest>,
}

#[derive(Clone, Debug, Default)]
pub struct CreateMemoCommentResponse {
    pub memo: Option<Memo>,
}

#[derive(Clone, Debug, Default)]
pub struct ListMemoCommentsRequest {
    pub id: i32,
}

#[derive(Clone, Debug, Default)]
pub struct ListMemoCommentsResponse {
    pub memos: Vec<Memo>,
}

#[derive(Clone, Debug, Default)]
pub struct Resource {
    pub id: i32,
    pub created_ts: Option<Timestamp>,
    pub filename: String,
    pub external_link: String,
    pub type_: String,
    pub size: i64,
    pub memo_id: Option<i32>,
}

#[derive(Clone, Debug, Default)]
pub struct CreateResourceRequest {
    pub filename: String,
    pub external_link: String,
    pub type_: String,
    pub memo_id: Option<i32>,
}

#[derive(Clone, Debug, Default)]
pub struct CreateResourceResponse {
    pub resource: Option<Resource>,
}

#[derive(Clone, Debug, Default)]
pub struct ListResourcesRequest {}

#[derive(Clone, Debug, Default)]
pub struct ListResourcesResponse {
    pub resources: Vec<Resource>,
}

#[derive(Clone, Debug, Default)]
pub struct UpdateResourceRequest {
    pub resource: Option<Resource>,
    pub update_mask: Option<FieldMask>,
}

#[derive(Clone, Debug, Default)]
pub struct UpdateResourceResponse {
    pub resource: Option<Resource>,
}

#[derive(Clone, Debug, Default)]
pub struct DeleteResourceRequest {
    pub id: i32,
}

#[derive(Clone, Debug, Default)]
pub struct DeleteResourceResponse {}

#[derive(Clone, Debug, Default)]
pub struct Tag {
    pub name: String,
    pub creator: String,
}

#[derive(Clone, Debug, Default)]
pub struct UpsertTagRequest {
    pub name: String,
}

#[derive(Clone, Debug, Default)]
pub struct UpsertTagResponse {
    pub tag: Option<Tag>,
}

#[derive(Clone, Debug, Default)]
pub struct ListTagsRequest {
    pub creator: String,
}

#[derive(Clone, Debug, Default)]
pub struct ListTagsResponse {
    pub tags: Vec<Tag>,
}

#[derive(Clone, Debug, Default)]
pub struct DeleteTagRequest {
    pub tag: Option<Tag>,
}

#[derive(Clone, Debug, Default)]
pub struct DeleteTagResponse {}

#[derive(Clone, Debug, Default)]
pub struct Activity {
    pub id: i32,
    pub creator_id: i32,
    pub type_: String,
    pub level: String,
    pub create_time: Option<Timestamp>,
    pub payload: Option<ActivityPayload>,
}

#[derive(Clone, Debug, Default)]
pub struct ActivityMemoCommentPayload {
    pub memo_id: i32,
    pub related_memo_id: i32,
}

#[derive(Clone, Debug, Default)]
pub struct ActivityVersionUpdatePayload {
    pub version: String,
}

#[derive(Clone, Debug, Default)]
pub struct ActivityPayload {
    pub memo_comment: Option<ActivityMemoCommentPayload>,
    pub version_update: Option<ActivityVersionUpdatePayload>,
}

#[derive(Clone, Debug, Default)]
pub struct GetActivityRequest {
    pub id: i32,
}

#[derive(Clone, Debug, Default)]
pub struct GetActivityResponse {
    pub activity: Option<Activity>,
}

#[derive(Clone, Debug, Default)]
pub struct Inbox {
    pub name: String,
    pub sender: String,
    pub receiver: String,
    pub status: i32,
    pub create_time: Option<Timestamp>,
    pub type_: i32,
    pub activity_id: Option<i32>,
}

#[derive(Clone, Debug, Default)]
pub struct ListInboxesRequest {
    pub user: String,
}

#[derive(Clone, Debug, Default)]
pub struct ListInboxesResponse {
    pub inboxes: Vec<Inbox>,
}

#[derive(Clone, Debug, Default)]
pub struct UpdateInboxRequest {
    pub inbox: Option<Inbox>,
    pub update_mask: Option<FieldMask>,
}

#[derive(Clone, Debug, Default)]
pub struct UpdateInboxResponse {
    pub inbox: Option<Inbox>,
}

#[derive(Clone, Debug, Default)]
pub struct DeleteInboxRequest {
    pub name: String,
}

#[derive(Clone, Debug, Default)]
pub struct DeleteInboxResponse {}

} // verus!
