use vstd::prelude::*;

use crate::text::str_eq;

verus! {

broadcast use vstd::string::group_string_axioms;

/// Where the content of a resource is kept.
#[derive(Clone, Copy, Debug, PartialEq, Eq, Hash, Structural)]
pub enum ResourceStorageType {
    Unspecified,
    Local,
    S3,
    External,
}

/// The name that the protobuf definition gives to each value of `ResourceStorageType`.
pub open spec fn resource_storage_type_name(v: ResourceStorageType) -> Seq<char> {
    match v {
        ResourceStorageType::Unspecified => "RESOURCE_STORAGE_TYPE_UNSPECIFIED"@,
        ResourceStorageType::Local => "LOCAL"@,
        ResourceStorageType::S3 => "S3"@,
        ResourceStorageType::External => "EXTERNAL"@,
    }
}

/// The value of `ResourceStorageType` that the protobuf definition names `s`, if any.
pub open spec fn resource_storage_type_from_name(s: Seq<char>) -> Option<ResourceStorageType> {
    if s == "RESOURCE_STORAGE_TYPE_UNSPECIFIED"@ {
        Some(ResourceStorageType::Unspecified)
    } else if s == "LOCAL"@ {
        Some(ResourceStorageType::Local)
    } else if s == "S3"@ {
        Some(ResourceStorageType::S3)
    } else if s == "EXTERNAL"@ {
        Some(ResourceStorageType::External)
    } else {
        None
    }
}

/// The number that the protobuf definition gives to each value of `ResourceStorageType`.
pub open spec fn resource_storage_type_number(v: ResourceStorageType) -> i32 {
    match v {
        ResourceStorageType::Unspecified => 0,
        ResourceStorageType::Local => 1,
        ResourceStorageType::S3 => 2,
        ResourceStorageType::External => 3,
    }
}

impl ResourceStorageType {
    /// String value of the enum field names used in the protobuf definition.
    pub fn as_str_name(&self) -> (r: &'static str)
        ensures
            r@ == resource_storage_type_name(*self),
    {
        match self {
            ResourceStorageType::Unspecified => "RESOURCE_STORAGE_TYPE_UNSPECIFIED",
            ResourceStorageType::Local => "LOCAL",
            ResourceStorageType::S3 => "S3",
            ResourceStorageType::External => "EXTERNAL",
        }
    }

    /// Creates an enum value from a field name used in the protobuf definition.
    pub fn from_str_name(value: &str) -> (r: Option<Self>)
        ensures
            r == resource_storage_type_from_name(value@),
    {
        if str_eq(value, "RESOURCE_STORAGE_TYPE_UNSPECIFIED") {
            Some(ResourceStorageType::Unspecified)
        } else if str_eq(value, "LOCAL") {
            Some(ResourceStorageType::Local)
        } else if str_eq(value, "S3") {
            Some(ResourceStorageType::S3)
        } else if str_eq(value, "EXTERNAL") {
            Some(ResourceStorageType::External)
        } else {
            None
        }
    }

    /// The number of this value in the protobuf definition.
    pub fn as_i32(&self) -> (r: i32)
        ensures
            r == resource_storage_type_number(*self),
    {
        match self {
            ResourceStorageType::Unspecified => 0,
            ResourceStorageType::Local => 1,
            ResourceStorageType::S3 => 2,
            ResourceStorageType::External => 3,
        }
    }

    /// The value numbered `value` in the protobuf definition, if any.
    pub fn from_i32(value: i32) -> (r: Option<Self>)
        ensures
            r matches Some(v) ==> resource_storage_type_number(v) == value,
            r is None ==> forall|v: ResourceStorageType| resource_storage_type_number(v) != value,
    {
        if value == 0 {
            Some(ResourceStorageType::Unspecified)
        } else if value == 1 {
            Some(ResourceStorageType::Local)
        } else if value == 2 {
            Some(ResourceStorageType::S3)
        } else if value == 3 {
            Some(ResourceStorageType::External)
        } else {
            None
        }
    }
}

impl ResourceStorageType {
    /// The value that a name read from the store names; an unknown name reads as the
    /// unspecified value.
    pub fn from_name_or_default(s: &str) -> (r: Self)
        ensures
            r == match resource_storage_type_from_name(s@) {
                Some(v) => v,
                None => ResourceStorageType::Unspecified,
            },
    {
        match Self::from_str_name(s) {
            Some(v) => v,
            None => ResourceStorageType::Unspecified,
        }
    }
}

impl Default for ResourceStorageType {
    fn default() -> (r: Self)
        ensures
            r == ResourceStorageType::Unspecified,
    {
        ResourceStorageType::Unspecified
    }
}

/// Reading back the name of a value gives the value; a name names one value only.
pub proof fn lemma_resource_storage_type_names(v: ResourceStorageType, s: Seq<char>)
    ensures
        resource_storage_type_from_name(resource_storage_type_name(v)) == Some(v),
        resource_storage_type_from_name(s) == Some(v) ==> s == resource_storage_type_name(v),
{
    reveal_strlit("RESOURCE_STORAGE_TYPE_UNSPECIFIED");
    reveal_strlit("LOCAL");
    reveal_strlit("S3");
    reveal_strlit("EXTERNAL");
    assert("RESOURCE_STORAGE_TYPE_UNSPECIFIED"@.len() != "LOCAL"@.len());
    assert("RESOURCE_STORAGE_TYPE_UNSPECIFIED"@.len() != "S3"@.len());
    assert("RESOURCE_STORAGE_TYPE_UNSPECIFIED"@.len() != "EXTERNAL"@.len());
    assert("LOCAL"@.len() != "S3"@.len());
    assert("LOCAL"@.len() != "EXTERNAL"@.len());
    assert("S3"@.len() != "EXTERNAL"@.len());
}

/// The settings that a user can change.
#[derive(Clone, Copy, Debug, PartialEq, Eq, Hash, Structural)]
pub enum UserSettingKey {
    Unspecified,
    AccessTokens,
    Locale,
    Appearance,
    MemoVisibility,
}

/// The name that the protobuf definition gives to each value of `UserSettingKey`.
pub open spec fn user_setting_key_name(v: UserSettingKey) -> Seq<char> {
    match v {
        UserSettingKey::Unspecified => "USER_SETTING_KEY_UNSPECIFIED"@,
        UserSettingKey::AccessTokens => "ACCESS_TOKENS"@,
        UserSettingKey::Locale => "LOCALE"@,
        UserSettingKey::Appearance => "APPEARANCE"@,
        UserSettingKey::MemoVisibility => "MEMO_VISIBILITY"@,
    }
}

/// The value of `UserSettingKey` that the protobuf definition names `s`, if any.
pub open spec fn user_setting_key_from_name(s: Seq<char>) -> Option<UserSettingKey> {
    if s == "USER_SETTING_KEY_UNSPECIFIED"@ {
        Some(UserSettingKey::Unspecified)
    } else if s == "ACCESS_TOKENS"@ {
        Some(UserSettingKey::AccessTokens)
    } else if s == "LOCALE"@ {
        Some(UserSettingKey::Locale)
    } else if s == "APPEARANCE"@ {
        Some(UserSettingKey::Appearance)
    } else if s == "MEMO_VISIBILITY"@ {
        Some(UserSettingKey::MemoVisibility)
    } else {
        None
    }
}

/// The number that the protobuf definition gives to each value of `UserSettingKey`.
pub open spec fn user_setting_key_number(v: UserSettingKey) -> i32 {
    match v {
        UserSettingKey::Unspecified => 0,
        UserSettingKey::AccessTokens => 1,
        UserSettingKey::Locale => 2,
        UserSettingKey::Appearance => 3,
        UserSettingKey::MemoVisibility => 4,
    }
}

impl UserSettingKey {
    /// String value of the enum field names used in the protobuf definition.
    pub fn as_str_name(&self) -> (r: &'static str)
        ensures
            r@ == user_setting_key_name(*self),
    {
        match self {
            UserSettingKey::Unspecified => "USER_SETTING_KEY_UNSPECIFIED",
            UserSettingKey::AccessTokens => "ACCESS_TOKENS",
            UserSettingKey::Locale => "LOCALE",
            UserSettingKey::Appearance => "APPEARANCE",
            UserSettingKey::MemoVisibility => "MEMO_VISIBILITY",
        }
    }

    /// Creates an enum value from a field name used in the protobuf definition.
    pub fn from_str_name(value: &str) -> (r: Option<Self>)
        ensures
            r == user_setting_key_from_name(value@),
    {
        if str_eq(value, "USER_SETTING_KEY_UNSPECIFIED") {
            Some(UserSettingKey::Unspecified)
        } else if str_eq(value, "ACCESS_TOKENS") {
            Some(UserSettingKey::AccessTokens)
        } else if str_eq(value, "LOCALE") {
            Some(UserSettingKey::Locale)
        } else if str_eq(value, "APPEARANCE") {
            Some(UserSettingKey::Appearance)
        } else if str_eq(value, "MEMO_VISIBILITY") {
            Some(UserSettingKey::MemoVisibility)
        } else {
            None
        }
    }

    /// The number of this value in the protobuf definition.
    pub fn as_i32(&self) -> (r: i32)
        ensures
            r == user_setting_key_number(*self),
    {
        match self {
            UserSettingKey::Unspecified => 0,
            UserSettingKey::AccessTokens => 1,
            UserSettingKey::Locale => 2,
            UserSettingKey::Appearance => 3,
            UserSettingKey::MemoVisibility => 4,
        }
    }

    /// The value numbered `value` in the protobuf definition, if any.
    pub fn from_i32(value: i32) -> (r: Option<Self>)
        ensures
            r matches Some(v) ==> user_setting_key_number(v) == value,
            r is None ==> forall|v: UserSettingKey| user_setting_key_number(v) != value,
    {
        if value == 0 {
            Some(UserSettingKey::Unspecified)
        } else if value == 1 {
            Some(UserSettingKey::AccessTokens)
        } else if value == 2 {
            Some(UserSettingKey::Locale)
        } else if value == 3 {
            Some(UserSettingKey::Appearance)
        } else if value == 4 {
            Some(UserSettingKey::MemoVisibility)
        } else {
            None
        }
    }
}

impl UserSettingKey {
    /// The value that a name read from the store names; an unknown name reads as the
    /// unspecified value.
    pub fn from_name_or_default(s: &str) -> (r: Self)
        ensures
            r == match user_setting_key_from_name(s@) {
                Some(v) => v,
                None => UserSettingKey::Unspecified,
            },
    {
        match Self::from_str_name(s) {
            Some(v) => v,
            None => UserSettingKey::Unspecified,
        }
    }
}

impl Default for UserSettingKey {
    fn default() -> (r: Self)
        ensures
            r == UserSettingKey::Unspecified,
    {
        UserSettingKey::Unspecified
    }
}

/// Reading back the name of a value gives the value; a name names one value only.
pub proof fn lemma_user_setting_key_names(v: UserSettingKey, s: Seq<char>)
    ensures
        user_setting_key_from_name(user_setting_key_name(v)) == Some(v),
        user_setting_key_from_name(s) == Some(v) ==> s == user_setting_key_name(v),
{
    reveal_strlit("USER_SETTING_KEY_UNSPECIFIED");
    reveal_strlit("ACCESS_TOKENS");
    reveal_strlit("LOCALE");
    reveal_strlit("APPEARANCE");
    reveal_strlit("MEMO_VISIBILITY");
    assert("USER_SETTING_KEY_UNSPECIFIED"@.len() != "ACCESS_TOKENS"@.len());
    assert("USER_SETTING_KEY_UNSPECIFIED"@.len() != "LOCALE"@.len());
    assert("USER_SETTING_KEY_UNSPECIFIED"@.len() != "APPEARANCE"@.len());
    assert("USER_SETTING_KEY_UNSPECIFIED"@.len() != "MEMO_VISIBILITY"@.len());
    assert("ACCESS_TOKENS"@.len() != "LOCALE"@.len());
    assert("ACCESS_TOKENS"@.len() != "APPEARANCE"@.len());
    assert("ACCESS_TOKENS"@.len() != "MEMO_VISIBILITY"@.len());
    assert("LOCALE"@.len() != "APPEARANCE"@.len());
    assert("LOCALE"@.len() != "MEMO_VISIBILITY"@.len());
    assert("APPEARANCE"@.len() != "MEMO_VISIBILITY"@.len());
}

/// The groups of workspace settings.
#[derive(Clone, Copy, Debug, PartialEq, Eq, Hash, Structural)]
pub enum WorkspaceSettingKey {
    Unspecified,
    Basic,
    General,
    Storage,
    MemoRelated,
}

/// The name that the protobuf definition gives to each value of `WorkspaceSettingKey`.
pub open spec fn workspace_setting_key_name(v: WorkspaceSettingKey) -> Seq<char> {
    match v {
        WorkspaceSettingKey::Unspecified => "WORKSPACE_SETTING_KEY_UNSPECIFIED"@,
        WorkspaceSettingKey::Basic => "BASIC"@,
        WorkspaceSettingKey::General => "GENERAL"@,
        WorkspaceSettingKey::Storage => "STORAGE"@,
        WorkspaceSettingKey::MemoRelated => "MEMO_RELATED"@,
    }
}

/// The value of `WorkspaceSettingKey` that the protobuf definition names `s`, if any.
pub open spec fn workspace_setting_key_from_name(s: Seq<char>) -> Option<WorkspaceSettingKey> {
    if s == "WORKSPACE_SETTING_KEY_UNSPECIFIED"@ {
        Some(WorkspaceSettingKey::Unspecified)
    } else if s == "BASIC"@ {
        Some(WorkspaceSettingKey::Basic)
    } else if s == "GENERAL"@ {
        Some(WorkspaceSettingKey::General)
    } else if s == "STORAGE"@ {
        Some(WorkspaceSettingKey::Storage)
    } else if s == "MEMO_RELATED"@ {
        Some(WorkspaceSettingKey::MemoRelated)
    } else {
        None
    }
}

/// The number that the protobuf definition gives to each value of `WorkspaceSettingKey`.
pub open spec fn workspace_setting_key_number(v: WorkspaceSettingKey) -> i32 {
    match v {
        WorkspaceSettingKey::Unspecified => 0,
        WorkspaceSettingKey::Basic => 1,
        WorkspaceSettingKey::General => 2,
        WorkspaceSettingKey::Storage => 3,
        WorkspaceSettingKey::MemoRelated => 4,
    }
}

impl WorkspaceSettingKey {
    /// String value of the enum field names used in the protobuf definition.
    pub fn as_str_name(&self) -> (r: &'static str)
        ensures
            r@ == workspace_setting_key_name(*self),
    {
        match self {
            WorkspaceSettingKey::Unspecified => "WORKSPACE_SETTING_KEY_UNSPECIFIED",
            WorkspaceSettingKey::Basic => "BASIC",
            WorkspaceSettingKey::General => "GENERAL",
            WorkspaceSettingKey::Storage => "STORAGE",
            WorkspaceSettingKey::MemoRelated => "MEMO_RELATED",
        }
    }

    /// Creates an enum value from a field name used in the protobuf definition.
    pub fn from_str_name(value: &str) -> (r: Option<Self>)
        ensures
            r == workspace_setting_key_from_name(value@),
    {
        if str_eq(value, "WORKSPACE_SETTING_KEY_UNSPECIFIED") {
            Some(WorkspaceSettingKey::Unspecified)
        } else if str_eq(value, "BASIC") {
            Some(WorkspaceSettingKey::Basic)
        } else if str_eq(value, "GENERAL") {
            Some(WorkspaceSettingKey::General)
        } else if str_eq(value, "STORAGE") {
            Some(WorkspaceSettingKey::Storage)
        } else if str_eq(value, "MEMO_RELATED") {
            Some(WorkspaceSettingKey::MemoRelated)
        } else {
            None
        }
    }

    /// The number of this value in the protobuf definition.
    pub fn as_i32(&self) -> (r: i32)
        ensures
            r == workspace_setting_key_number(*self),
    {
        match self {
            WorkspaceSettingKey::Unspecified => 0,
            WorkspaceSettingKey::Basic => 1,
            WorkspaceSettingKey::General => 2,
            WorkspaceSettingKey::Storage => 3,
            WorkspaceSettingKey::MemoRelated => 4,
        }
    }

    /// The value numbered `value` in the protobuf definition, if any.
    pub fn from_i32(value: i32) -> (r: Option<Self>)
        ensures
            r matches Some(v) ==> workspace_setting_key_number(v) == value,
            r is None ==> forall|v: WorkspaceSettingKey| workspace_setting_key_number(v) != value,
    {
        if value == 0 {
            Some(WorkspaceSettingKey::Unspecified)
        } else if value == 1 {
            Some(WorkspaceSettingKey::Basic)
        } else if value == 2 {
            Some(WorkspaceSettingKey::General)
        } else if value == 3 {
            Some(WorkspaceSettingKey::Storage)
        } else if value == 4 {
            Some(WorkspaceSettingKey::MemoRelated)
        } else {
            None
        }
    }
}

impl Default for WorkspaceSettingKey {
    fn default() -> (r: Self)
        ensures
            r == WorkspaceSettingKey::Unspecified,
    {
        WorkspaceSettingKey::Unspecified
    }
}

/// Reading back the name of a value gives the value; a name names one value only.
pub proof fn lemma_workspace_setting_key_names(v: WorkspaceSettingKey, s: Seq<char>)
    ensures
        workspace_setting_key_from_name(workspace_setting_key_name(v)) == Some(v),
        workspace_setting_key_from_name(s) == Some(v) ==> s == workspace_setting_key_name(v),
{
    reveal_strlit("WORKSPACE_SETTING_KEY_UNSPECIFIED");
    reveal_strlit("BASIC");
    reveal_strlit("GENERAL");
    reveal_strlit("STORAGE");
    reveal_strlit("MEMO_RELATED");
    assert("WORKSPACE_SETTING_KEY_UNSPECIFIED"@.len() != "BASIC"@.len());
    assert("WORKSPACE_SETTING_KEY_UNSPECIFIED"@.len() != "GENERAL"@.len());
    assert("WORKSPACE_SETTING_KEY_UNSPECIFIED"@.len() != "STORAGE"@.len());
    assert("WORKSPACE_SETTING_KEY_UNSPECIFIED"@.len() != "MEMO_RELATED"@.len());
    assert("BASIC"@.len() != "GENERAL"@.len());
    assert("BASIC"@.len() != "STORAGE"@.len());
    assert("BASIC"@.len() != "MEMO_RELATED"@.len());
    assert("GENERAL"@[0] != "STORAGE"@[0]);
    assert("GENERAL"@.len() != "MEMO_RELATED"@.len());
    assert("STORAGE"@.len() != "MEMO_RELATED"@.len());
}

/// What the content of a memo holds, as worked out when it was saved.
#[derive(Clone, Debug, Default)]
pub struct Property {
    pub tags: Vec<String>,
    pub has_link: bool,
    pub has_task_list: bool,
    pub has_code: bool,
    pub has_incomplete_tasks: bool,
}

/// Data that a memo carries beside its content.
#[derive(Clone, Debug, Default)]
pub struct MemoPayload {
    pub property: Option<Property>,
}

/// The basic settings of the workspace.
#[derive(Clone, Debug, Default)]
pub struct WorkspaceBasicSetting {
    pub secret_key: String,
}

/// How the workspace presents itself.
#[derive(Clone, Debug, Default)]
pub struct WorkspaceCustomProfile {
    pub title: String,
    pub description: String,
    pub logo_url: String,
    pub locale: String,
    pub appearance: String,
}

/// The general settings of the workspace.
#[derive(Clone, Debug, Default)]
pub struct WorkspaceGeneralSetting {
    pub additional_script: String,
    pub additional_style: String,
    pub custom_profile: Option<WorkspaceCustomProfile>,
}

/// Where an S3 bucket is and how to reach it.
#[derive(Clone, Debug, Default)]
pub struct StorageS3Config {
    pub access_key_id: String,
    pub access_key_secret: String,
    pub endpoint: String,
    pub region: String,
    pub bucket: String,
}

/// Where the workspace stores its resources.
#[derive(Clone, Debug, Default)]
pub struct WorkspaceStorageSetting {
    pub storage_type: i32,
    pub filepath_template: String,
    pub upload_size_limit_mb: i64,
    pub s3_config: Option<StorageS3Config>,
}

/// The settings of the workspace that concern memos.
#[derive(Clone, Debug, Default)]
pub struct WorkspaceMemoRelatedSetting {
    pub disallow_public_visibility: bool,
    pub display_with_update_time: bool,
    pub content_length_limit: i32,
    pub enable_auto_compact: bool,
    pub enable_double_click_edit: bool,
    pub enable_link_preview: bool,
}

/// A stored setting of the workspace, by kind.
#[derive(Clone, Debug)]
pub enum WorkspaceSettingValue {
    BasicSetting(WorkspaceBasicSetting),
    GeneralSetting(WorkspaceGeneralSetting),
    StorageSetting(WorkspaceStorageSetting),
    MemoRelatedSetting(WorkspaceMemoRelatedSetting),
}

} // verus!
