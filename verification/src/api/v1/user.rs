use vstd::prelude::*;

use super::user_setting::UserSetting;
use crate::pb::memos_api_v2::User;

verus! {

/// A user with the settings of the user.
#[derive(Clone, Debug, Default)]
pub struct UserInfo {
    pub user: User,
    pub settings: Vec<UserSetting>,
}

} // verus!
