use vstd::prelude::*;

use crate::pb::memos_api_v2::User;

verus! {

broadcast use vstd::string::group_string_axioms;

/// The version of the server that the status reports.
pub const VERSION: &'static str = "0.19.0";
/// The mode that the server runs in.
pub const MODE: &'static str = "prod";

/// The status of the server that the web client shows.
#[derive(Clone, Debug)]
pub struct SystemStatus {
    pub additional_script: String,
    pub additional_style: String,
    pub allow_sign_up: bool,
    pub auto_backup_interval: i32,
    pub customized_profile: CustomizedProfile,
    pub db_size: i32,
    pub disable_password_login: bool,
    pub disable_public_memos: bool,
    pub host: Host,
    pub local_storage_path: String,
    pub max_upload_size_mi_b: i32,
    pub memo_display_with_updated_ts: bool,
    pub profile: Profile,
    pub storage_service_id: i32,
}

/// How the server presents itself.
#[derive(Clone, Debug)]
pub struct CustomizedProfile {
    pub appearance: String,
    pub description: String,
    pub external_url: String,
    pub locale: String,
    pub logo_url: String,
    pub name: String,
}

/// How the server runs.
#[derive(Clone, Debug)]
pub struct Profile {
    /// Mode can be "prod" or "dev" or "demo".
    pub mode: String,
    /// Version is the current version of server.
    pub version: String,
    /// Driver is the database driver.
    pub driver: String,
    /// DSN points to where memos stores its own data.
    pub dsn: String,
    /// Addr is the binding address for server.
    pub addr: String,
    /// Port is the binding port for server.
    pub port: String,
    /// Data is the data directory.
    pub data: String,
    /// Metric indicate the metric collection is enabled or not.
    pub metric: bool,
}

/// The host user of the server.
#[derive(Clone, Copy, Debug, PartialEq, Eq, Structural)]
pub struct Host {
    pub id: i32,
    pub create_time: i32,
    pub update_time: i32,
}

impl Default for CustomizedProfile {
    fn default() -> (r: Self)
        ensures
            r.appearance@.len() == 0 && r.description@.len() == 0 && r.external_url@.len() == 0,
            r.locale@.len() == 0 && r.logo_url@.len() == 0 && r.name@.len() == 0,
    {
        CustomizedProfile {
            appearance: String::new(),
            description: String::new(),
            external_url: String::new(),
            locale: String::new(),
            logo_url: String::new(),
            name: String::new(),
        }
    }
}

impl Default for Host {
    fn default() -> (r: Self)
        ensures
            r == (Host { id: 0, create_time: 0, update_time: 0 }),
    {
        Host { id: 0, create_time: 0, update_time: 0 }
    }
}

impl Host {
    /// The host that `user` is.
    pub fn from_user(value: &User) -> (r: Self)
        ensures
            r == (Host { id: value.id, create_time: 0, update_time: 0 }),
    {
        Host { id: value.id, create_time: 0, update_time: 0 }
    }
}

/// What the default status holds.
pub open spec fn is_default_status(r: SystemStatus) -> bool {
    &&& r.allow_sign_up
    &&& r.customized_profile.locale@ == "zh-Hans"@
    &&& r.customized_profile.name@ == "Memos"@
    &&& r.customized_profile.appearance@ == "system"@
    &&& r.customized_profile.description@.len() == 0
    &&& r.customized_profile.external_url@.len() == 0
    &&& r.customized_profile.logo_url@.len() == 0
    &&& r.local_storage_path@ == "assets/{timestamp}_{filename}"@
    &&& r.max_upload_size_mi_b == 32
    &&& r.profile.mode@ == MODE@
    &&& r.profile.version@ == VERSION@
    &&& r.profile.driver@.len() == 0 && r.profile.dsn@.len() == 0 && r.profile.addr@.len() == 0
    &&& r.profile.port@.len() == 0 && r.profile.data@.len() == 0 && !r.profile.metric
    &&& r.storage_service_id == -1
    &&& r.additional_script@.len() == 0
    &&& r.additional_style@.len() == 0
    &&& r.auto_backup_interval == 0
    &&& r.db_size == 0
    &&& !r.disable_password_login
    &&& !r.disable_public_memos
    &&& r.host == (Host { id: 0, create_time: 0, update_time: 0 })
    &&& !r.memo_display_with_updated_ts
}

impl Default for SystemStatus {
    fn default() -> (r: Self)
        ensures
            is_default_status(r),
    {
        SystemStatus {
            allow_sign_up: true,
            customized_profile: CustomizedProfile {
                locale: String::from_str("zh-Hans"),
                name: String::from_str("Memos"),
                appearance: String::from_str("system"),
                description: String::new(),
                external_url: String::new(),
                logo_url: String::new(),
            },
            local_storage_path: String::from_str("assets/{timestamp}_{filename}"),
            max_upload_size_mi_b: 32,
            profile: Profile {
                mode: String::from_str(MODE),
                version: String::from_str(VERSION),
                driver: String::new(),
                dsn: String::new(),
                addr: String::new(),
                port: String::new(),
                data: String::new(),
                metric: false,
            },
            storage_service_id: -1,
            additional_script: String::new(),
            additional_style: String::new(),
            auto_backup_interval: 0,
            db_size: 0,
            disable_password_login: false,
            disable_public_memos: false,
            host: Host::default(),
            memo_display_with_updated_ts: false,
        }
    }
}

} // verus!
