use vstd::prelude::*;

use crate::pb::{FieldMask, Timestamp};
use crate::text::str_eq;

verus! {

broadcast use vstd::string::group_string_axioms;

/// The order in which a list is sorted.
#[derive(Clone, Copy, Debug, PartialEq, Eq, Hash, Structural)]
pub enum Direction {
    Unspecified,
    Asc,
    Desc,
}

/// The name that the protobuf definition gives to each value of `Direction`.
pub open spec fn direction_name(v: Direction) -> Seq<char> {
    match v {
        Direction::Unspecified => "DIRECTION_UNSPECIFIED"@,
        Direction::Asc => "ASC"@,
        Direction::Desc => "DESC"@,
    }
}

/// The value of `Direction` that the protobuf definition names `s`, if any.
pub open spec fn direction_from_name(s: Seq<char>) -> Option<Direction> {
    if s == "DIRECTION_UNSPECIFIED"@ {
        Some(Direction::Unspecified)
    } else if s == "ASC"@ {
        Some(Direction::Asc)
    } else if s == "DESC"@ {
        Some(Direction::Desc)
    } else {
        None
    }
}

/// The number that the protobuf definition gives to each value of `Direction`.
pub open spec fn direction_number(v: Direction) -> i32 {
    match v {
        Direction::Unspecified => 0,
        Direction::Asc => 1,
        Direction::Desc => 2,
    }
}

impl Direction {
    /// String value of the enum field names used in the protobuf definition.
    pub fn as_str_name(&self) -> (r: &'static str)
        ensures
            r@ == direction_name(*self),
    {
        match self {
            Direction::Unspecified => "DIRECTION_UNSPECIFIED",
            Direction::Asc => "ASC",
            Direction::Desc => "DESC",
        }
    }

    /// Creates an enum value from a field name used in the protobuf definition.
    pub fn from_str_name(value: &str) -> (r: Option<Self>)
        ensures
            r == direction_from_name(value@),
    {
        if str_eq(value, "DIRECTION_UNSPECIFIED") {
            Some(Direction::Unspecified)
        } else if str_eq(value, "ASC") {
            Some(Direction::Asc)
        } else if str_eq(value, "DESC") {
            Some(Direction::Desc)
        } else {
            None
        }
    }

    /// The number of this value in the protobuf definition.
    pub fn as_i32(&self) -> (r: i32)
        ensures
            r == direction_number(*self),
    {
        match self {
            Direction::Unspecified => 0,
            Direction::Asc => 1,
            Direction::Desc => 2,
        }
    }

    /// The value numbered `value` in the protobuf definition, if any.
    pub fn from_i32(value: i32) -> (r: Option<Self>)
        ensures
            r matches Some(v) ==> direction_number(v) == value,
            r is None ==> forall|v: Direction| direction_number(v) != value,
    {
        if value == 0 {
            Some(Direction::Unspecified)
        } else if value == 1 {
            Some(Direction::Asc)
        } else if value == 2 {
            Some(Direction::Desc)
        } else {
            None
        }
    }
}

impl Default for Direction {
    fn default() -> (r: Self)
        ensures
            r == Direction::Unspecified,
    {
        Direction::Unspecified
    }
}

/// Reading back the name of a value gives the value; a name names one value only.
pub proof fn lemma_direction_names(v: Direction, s: Seq<char>)
    ensures
        direction_from_name(direction_name(v)) == Some(v),
        direction_from_name(s) == Some(v) ==> s == direction_name(v),
{
    reveal_strlit("DIRECTION_UNSPECIFIED");
    reveal_strlit("ASC");
    reveal_strlit("DESC");
    assert("DIRECTION_UNSPECIFIED"@.len() != "ASC"@.len());
    assert("DIRECTION_UNSPECIFIED"@.len() != "DESC"@.len());
    assert("ASC"@.len() != "DESC"@.len());
}

/// Where a page of a list starts and how long it is.
#[derive(Clone, Copy, Debug, Default, PartialEq, Eq, Structural)]
pub struct PageToken {
    pub limit: i32,
    pub offset: i32,
}

/// A memo as the v1 API shows it.
#[derive(Clone, Debug, Default)]
pub struct Memo {
    /// Format: memos/{id}
    pub name: String,
    pub uid: String,
    pub row_status: i32,
    /// Format: users/{id}
    pub creator: String,
    pub create_time: Option<Timestamp>,
    pub update_time: Option<Timestamp>,
    pub display_time: Option<Timestamp>,
    pub content: String,
    pub visibility: i32,
    /// Tags, as this API used to list them beside the content.
    pub tags: Vec<String>,
    pub pinned: bool,
    /// The id of the memo that this one comments on, as this API used to give it.
    pub parent_id: Option<i32>,
    pub resources: Vec<Resource>,
    pub relations: Vec<MemoRelation>,
    pub reactions: Vec<Reaction>,
    pub property: Option<MemoProperty>,
    /// The name of the memo that this one comments on. Format: memos/{id}
    pub parent: Option<String>,
    pub snippet: String,
}

/// A link from one memo to another, as the v1 API shows it.
#[derive(Clone, Debug, Default)]
pub struct MemoRelation {
    /// Format: memos/{id}
    pub memo: String,
    /// Format: memos/{id}
    pub related_memo: String,
    pub type_: i32,
}

/// A reaction of a user to a memo, as the v1 API shows it.
#[derive(Clone, Debug, Default)]
pub struct Reaction {
    pub id: i32,
    /// Format: users/{id}
    pub creator: String,
    pub content_id: String,
    pub reaction_type: i32,
}

/// What the content of a memo holds, as the v1 API shows it.
#[derive(Clone, Debug, Default)]
pub struct MemoProperty {
    pub tags: Vec<String>,
    pub has_link: bool,
    pub has_task_list: bool,
    pub has_code: bool,
    pub has_incomplete_tasks: bool,
}

/// A request for a page of memos.
#[derive(Clone, Debug, Default)]
pub struct ListMemosRequest {
    pub page_size: i32,
    pub page_token: String,
    pub filter: String,
}

/// A request that changes the fields of a memo that `update_mask` names.
#[derive(Clone, Debug, Default)]
pub struct UpdateMemoRequest {
    pub memo: Option<Memo>,
    pub update_mask: Option<FieldMask>,
}

/// The settings of a user, as the v1 API shows them.
#[derive(Clone, Debug, Default)]
pub struct UserSetting {
    pub locale: String,
    pub appearance: String,
    pub memo_visibility: String,
}

/// A request that changes the settings that `update_mask` names.
#[derive(Clone, Debug, Default)]
pub struct UpdateUserSettingRequest {
    pub setting: Option<UserSetting>,
    pub update_mask: Option<FieldMask>,
}

/// A user as the v1 API shows it.
#[derive(Clone, Debug, Default)]
pub struct User {
    /// Format: users/{id}
    pub name: String,
    pub id: i32,
    pub role: i32,
    pub username: String,
    pub email: String,
    pub nickname: String,
    pub avatar_url: String,
    pub description: String,
    pub password: String,
    pub row_status: i32,
    pub create_time: Option<Timestamp>,
    pub update_time: Option<Timestamp>,
}

/// A resource as the v1 API shows it.
#[derive(Clone, Debug, Default)]
pub struct Resource {
    /// Format: resources/{id}
    pub name: String,
    pub uid: String,
    pub create_time: Option<Timestamp>,
    pub filename: String,
    pub content: Vec<u8>,
    pub external_link: String,
    pub type_: String,
    pub size: i64,
    /// Format: memos/{id}
    pub memo: Option<String>,
}

/// A request for one setting of the workspace. Format of `name`: settings/{setting}
#[derive(Clone, Debug, Default)]
pub struct GetWorkspaceSettingRequest {
    pub name: String,
}

/// How the workspace presents itself.
#[derive(Clone, Debug, Default)]
pub struct WorkspaceCustomProfile {
    pub title: String,
    pub description: String,
    pub logo_url: String,
    pub locale: String,
    pub appearance: String,
}

/// The general settings of the workspace.
#[derive(Clone, Debug, Default)]
pub struct WorkspaceGeneralSetting {
    pub additional_script: String,
    pub additional_style: String,
    pub custom_profile: Option<WorkspaceCustomProfile>,
}

/// Where an S3 bucket is and how to reach it.
#[derive(Clone, Debug, Default)]
pub struct S3Config {
    pub access_key_id: String,
    pub access_key_secret: String,
    pub endpoint: String,
    pub region: String,
    pub bucket: String,
}

/// Where the workspace stores its resources.
#[derive(Clone, Debug, Default)]
pub struct WorkspaceStorageSetting {
    pub storage_type: i32,
    pub filepath_template: String,
    pub upload_size_limit_mb: i64,
    pub s3_config: Option<S3Config>,
}

/// The settings of the workspace that concern memos.
#[derive(Clone, Debug, Default)]
pub struct WorkspaceMemoRelatedSetting {
    pub disallow_public_visibility: bool,
    pub display_with_update_time: bool,
    pub content_length_limit: i32,
    pub enable_auto_compact: bool,
    pub enable_double_click_edit: bool,
    pub enable_link_preview: bool,
}

/// A setting of the workspace as the API shows it, by kind.
#[derive(Clone, Debug)]
pub enum WorkspaceSettingValue {
    GeneralSetting(WorkspaceGeneralSetting),
    StorageSetting(WorkspaceStorageSetting),
    MemoRelatedSetting(WorkspaceMemoRelatedSetting),
}

/// What a question for the signed-in user is answered with.
#[derive(Clone, Debug, Default)]
pub struct GetAuthStatusResponse {
    pub user: Option<User>,
}

/// A request for one memo. Format of `name`: memos/{id}
#[derive(Clone, Debug, Default)]
pub struct GetMemoRequest {
    pub name: String,
}

/// A request that deletes a memo. Format of `name`: memos/{id}
#[derive(Clone, Debug, Default)]
pub struct DeleteMemoRequest {
    pub name: String,
}

/// A request that sets the resources of a memo. Format of `name`: memos/{id}
#[derive(Clone, Debug, Default)]
pub struct SetMemoResourcesRequest {
    pub name: String,
    pub resources: Vec<Resource>,
}

/// A request for the properties of a memo. Format of `name`: memos/{id}
#[derive(Clone, Debug, Default)]
pub struct ListMemoPropertiesRequest {
    pub name: String,
}

/// A request for one resource. Format of `name`: resources/{id}
#[derive(Clone, Debug, Default)]
pub struct GetResourceRequest {
    pub name: String,
}

/// A request that deletes a resource. Format of `name`: resources/{id}
#[derive(Clone, Debug, Default)]
pub struct DeleteResourceRequest {
    pub name: String,
}

/// A request for one user. Format of `name`: users/{id}
#[derive(Clone, Debug, Default)]
pub struct GetUserRequest {
    pub name: String,
}

/// A message in the inbox of a user. Format of `name`: inboxes/{id}
#[derive(Clone, Debug, Default)]
pub struct Inbox {
    pub name: String,
    /// Format: users/{id}
    pub sender: String,
    /// Format: users/{id}
    pub receiver: String,
    pub status: i32,
    pub create_time: Option<Timestamp>,
    pub type_: i32,
    pub activity_id: Option<i32>,
}

} // verus!
