use vstd::prelude::*;

use super::prefixed;

verus! {

/// The store failed to find user; `source` says why.
#[derive(Clone, Debug)]
pub struct FindUserError {
    pub source: String,
}

impl FindUserError {
    /// The message that describes the failure.
    pub fn message(&self) -> (r: String)
        ensures
            r@ == "Failed to find user: "@ + self.source@,
    {
        prefixed("Failed to find user: ", self.source.as_str())
    }
}

/// The store failed to petch user; `source` says why.
#[derive(Clone, Debug)]
pub struct PetchUserError {
    pub source: String,
}

impl PetchUserError {
    /// The message that describes the failure.
    pub fn message(&self) -> (r: String)
        ensures
            r@ == "Failed to petch user: "@ + self.source@,
    {
        prefixed("Failed to petch user: ", self.source.as_str())
    }
}

/// The store failed to get host user; `source` says why.
#[derive(Clone, Debug)]
pub struct GetHostUserError {
    pub source: String,
}

impl GetHostUserError {
    /// The message that describes the failure.
    pub fn message(&self) -> (r: String)
        ensures
            r@ == "Failed to get host user: "@ + self.source@,
    {
        prefixed("Failed to get host user: ", self.source.as_str())
    }
}

/// The store failed to find user setting; `source` says why.
#[derive(Clone, Debug)]
pub struct FindUserSettingError {
    pub source: String,
}

impl FindUserSettingError {
    /// The message that describes the failure.
    pub fn message(&self) -> (r: String)
        ensures
            r@ == "Failed to find user setting: "@ + self.source@,
    {
        prefixed("Failed to find user setting: ", self.source.as_str())
    }
}

/// The store failed to upsert user setting; `source` says why.
#[derive(Clone, Debug)]
pub struct UpsertUserSettingError {
    pub source: String,
}

impl UpsertUserSettingError {
    /// The message that describes the failure.
    pub fn message(&self) -> (r: String)
        ensures
            r@ == "Failed to upsert user setting: "@ + self.source@,
    {
        prefixed("Failed to upsert user setting: ", self.source.as_str())
    }
}

} // verus!
