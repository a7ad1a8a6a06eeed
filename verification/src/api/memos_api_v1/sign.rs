use vstd::prelude::*;

verus! {

/// The credentials of a sign-in request.
#[derive(Clone, Debug, Default)]
pub struct SignRequest {
    pub username: String,
    pub password: String,
}

} // verus!
