use vstd::prelude::*;

use super::v1::gen::{GetAuthStatusResponse, User};

verus! {

impl GetAuthStatusResponse {
    /// The answer that names `user` as the signed-in user.
    pub fn from_user(value: User) -> (r: Self)
        ensures
            r.user == Some(value),
    {
        GetAuthStatusResponse { user: Some(value) }
    }
}

} // verus!
