use vstd::prelude::*;

use super::prefix::{extract_id, extract_name, Error, ExtractName, WORKSPACE_SETTING_NAME_PREFIX};
use super::v1::gen::{
    GetWorkspaceSettingRequest, S3Config, WorkspaceCustomProfile, WorkspaceGeneralSetting,
    WorkspaceMemoRelatedSetting, WorkspaceSettingValue, WorkspaceStorageSetting,
};
use crate::model::gen as store;

verus! {

impl ExtractName for GetWorkspaceSettingRequest {
    open spec fn spec_full_name(&self) -> Seq<char> {
        self.name@
    }

    open spec fn spec_prefix(&self) -> Seq<char> {
        WORKSPACE_SETTING_NAME_PREFIX@
    }

    fn get_name(&self) -> (r: String) {
        extract_name(&self.name, WORKSPACE_SETTING_NAME_PREFIX)
    }

    fn get_id(&self) -> (r: Result<i32, Error>) {
        extract_id(&self.name, WORKSPACE_SETTING_NAME_PREFIX)
    }
}

/// The stored profile as the API shows it: the same fields.
pub open spec fn profile_of(v: store::WorkspaceCustomProfile) -> WorkspaceCustomProfile {
    WorkspaceCustomProfile {
        title: v.title,
        description: v.description,
        logo_url: v.logo_url,
        locale: v.locale,
        appearance: v.appearance,
    }
}

/// The stored general settings as the API shows them: the same fields.
pub open spec fn general_of(v: store::WorkspaceGeneralSetting) -> WorkspaceGeneralSetting {
    WorkspaceGeneralSetting {
        additional_script: v.additional_script,
        additional_style: v.additional_style,
        custom_profile: match v.custom_profile {
            Some(cp) => Some(profile_of(cp)),
            None => None,
        },
    }
}

/// The stored memo settings as the API shows them: the same fields.
pub open spec fn memo_related_of(v: store::WorkspaceMemoRelatedSetting) -> WorkspaceMemoRelatedSetting {
    WorkspaceMemoRelatedSetting {
        disallow_public_visibility: v.disallow_public_visibility,
        display_with_update_time: v.display_with_update_time,
        content_length_limit: v.content_length_limit,
        enable_auto_compact: v.enable_auto_compact,
        enable_double_click_edit: v.enable_double_click_edit,
        enable_link_preview: v.enable_link_preview,
    }
}

/// The stored S3 configuration as the API shows it: the same fields.
pub open spec fn s3_of(v: store::StorageS3Config) -> S3Config {
    S3Config {
        access_key_id: v.access_key_id,
        access_key_secret: v.access_key_secret,
        endpoint: v.endpoint,
        region: v.region,
        bucket: v.bucket,
    }
}

/// The stored storage settings as the API shows them: the same fields.
pub open spec fn storage_of(v: store::WorkspaceStorageSetting) -> WorkspaceStorageSetting {
    WorkspaceStorageSetting {
        storage_type: v.storage_type,
        filepath_template: v.filepath_template,
        upload_size_limit_mb: v.upload_size_limit_mb,
        s3_config: match v.s3_config {
            Some(s) => Some(s3_of(s)),
            None => None,
        },
    }
}

/// A stored setting as the API shows it, of the same kind; the basic settings have no
/// such form.
pub open spec fn setting_value_of(v: store::WorkspaceSettingValue) -> Option<WorkspaceSettingValue> {
    match v {
        store::WorkspaceSettingValue::BasicSetting(_) => None,
        store::WorkspaceSettingValue::GeneralSetting(s) => Some(WorkspaceSettingValue::GeneralSetting(general_of(s))),
        store::WorkspaceSettingValue::StorageSetting(s) => Some(WorkspaceSettingValue::StorageSetting(storage_of(s))),
        store::WorkspaceSettingValue::MemoRelatedSetting(s) => Some(
            WorkspaceSettingValue::MemoRelatedSetting(memo_related_of(s)),
        ),
    }
}

impl WorkspaceCustomProfile {
    /// The stored profile as the API shows it.
    pub fn from_model(value: store::WorkspaceCustomProfile) -> (r: Self)
        ensures
            r == profile_of(value),
    {
        WorkspaceCustomProfile {
            title: value.title,
            description: value.description,
            logo_url: value.logo_url,
            locale: value.locale,
            appearance: value.appearance,
        }
    }
}

impl WorkspaceGeneralSetting {
    /// The stored general settings as the API shows them.
    pub fn from_model(value: store::WorkspaceGeneralSetting) -> (r: Self)
        ensures
            r == general_of(value),
    {
        WorkspaceGeneralSetting {
            additional_script: value.additional_script,
            additional_style: value.additional_style,
            custom_profile: match value.custom_profile {
                Some(cp) => Some(WorkspaceCustomProfile::from_model(cp)),
                None => None,
            },
        }
    }
}

impl WorkspaceMemoRelatedSetting {
    /// The stored memo settings as the API shows them.
    pub fn from_model(value: store::WorkspaceMemoRelatedSetting) -> (r: Self)
        ensures
            r == memo_related_of(value),
    {
        WorkspaceMemoRelatedSetting {
            disallow_public_visibility: value.disallow_public_visibility,
            display_with_update_time: value.display_with_update_time,
            content_length_limit: value.content_length_limit,
            enable_auto_compact: value.enable_auto_compact,
            enable_double_click_edit: value.enable_double_click_edit,
            enable_link_preview: value.enable_link_preview,
        }
    }
}

impl S3Config {
    /// The stored S3 configuration as the API shows it.
    pub fn from_model(value: store::StorageS3Config) -> (r: Self)
        ensures
            r == s3_of(value),
    {
        S3Config {
            access_key_id: value.access_key_id,
            access_key_secret: value.access_key_secret,
            endpoint: value.endpoint,
            region: value.region,
            bucket: value.bucket,
        }
    }
}

impl WorkspaceStorageSetting {
    /// The stored storage settings as the API shows them.
    pub fn from_model(value: store::WorkspaceStorageSetting) -> (r: Self)
        ensures
            r == storage_of(value),
    {
        WorkspaceStorageSetting {
            storage_type: value.storage_type,
            filepath_template: value.filepath_template,
            upload_size_limit_mb: value.upload_size_limit_mb,
            s3_config: match value.s3_config {
                Some(s) => Some(S3Config::from_model(s)),
                None => None,
            },
        }
    }
}

impl WorkspaceSettingValue {
    /// A stored setting as the API shows it, of the same kind. The basic settings have
    /// no such form: they are not asked for.
    pub fn from_model(value: store::WorkspaceSettingValue) -> (r: Self)
        requires
            !(value is BasicSetting),
        ensures
            setting_value_of(value) == Some(r),
    {
        match value {
            store::WorkspaceSettingValue::GeneralSetting(s) => WorkspaceSettingValue::GeneralSetting(
                WorkspaceGeneralSetting::from_model(s),
            ),
            store::WorkspaceSettingValue::StorageSetting(s) => WorkspaceSettingValue::StorageSetting(
                WorkspaceStorageSetting::from_model(s),
            ),
            store::WorkspaceSettingValue::MemoRelatedSetting(s) => WorkspaceSettingValue::MemoRelatedSetting(
                WorkspaceMemoRelatedSetting::from_model(s),
            ),
            store::WorkspaceSettingValue::BasicSetting(_) => vstd::pervasive::unreached(),
        }
    }
}

} // verus!
