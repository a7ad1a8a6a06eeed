use vstd::prelude::*;

verus! {

/// One setting of a user, as the REST API shows it.
#[derive(Clone, Debug, Default)]
pub struct UserSetting {
    pub user_id: i32,
    pub key: String,
    pub value: String,
}

} // verus!
