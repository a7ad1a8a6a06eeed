use vstd::prelude::*;

use super::gen::UserSettingKey;
use crate::pb::memos_api_v2::{Role, RowStatus};

verus! {

/// One setting of a user.
#[derive(Clone, Debug, Default)]
pub struct UserSetting {
    pub user_id: i32,
    pub key: UserSettingKey,
    pub value: String,
}

/// A user as it is stored.
#[derive(Clone, Debug, Default)]
pub struct User {
    pub id: i32,
    pub role: Role,
    pub username: String,
    pub email: String,
    pub nickname: String,
    pub avatar_url: String,
    pub description: String,
    pub password_hash: String,
    pub row_status: RowStatus,
    pub created_ts: i64,
    pub updated_ts: i64,
}

} // verus!
