use vstd::prelude::*;

verus! {

/// Credentials of a sign-in request.
#[derive(Clone, Debug, Default)]
pub struct SignRequest {
    pub username: String,
    pub password: String,
}

/// The (empty) answer to a sign-in request.
#[derive(Clone, Copy, Debug, Default)]
pub struct SignResponse {}

} // verus!
