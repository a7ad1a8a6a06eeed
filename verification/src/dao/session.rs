use vstd::prelude::*;

use super::prefixed;

verus! {

/// The store failed to save session; `source` says why.
#[derive(Clone, Debug)]
pub struct CreateSessionError {
    pub source: String,
}

impl CreateSessionError {
    /// The message that describes the failure.
    pub fn message(&self) -> (r: String)
        ensures
            r@ == "Failed to save session: "@ + self.source@,
    {
        prefixed("Failed to save session: ", self.source.as_str())
    }
}

/// The store failed to get session; `source` says why.
#[derive(Clone, Debug)]
pub struct GetSessionError {
    pub source: String,
}

impl GetSessionError {
    /// The message that describes the failure.
    pub fn message(&self) -> (r: String)
        ensures
            r@ == "Failed to get session: "@ + self.source@,
    {
        prefixed("Failed to get session: ", self.source.as_str())
    }
}

/// The store failed to delete session; `source` says why.
#[derive(Clone, Debug)]
pub struct DeleteSessionError {
    pub source: String,
}

impl DeleteSessionError {
    /// The message that describes the failure.
    pub fn message(&self) -> (r: String)
        ensures
            r@ == "Failed to delete session: "@ + self.source@,
    {
        prefixed("Failed to delete session: ", self.source.as_str())
    }
}

/// The store failed to delete expired session; `source` says why.
#[derive(Clone, Debug)]
pub struct DeleteExpiredSessionError {
    pub source: String,
}

impl DeleteExpiredSessionError {
    /// The message that describes the failure.
    pub fn message(&self) -> (r: String)
        ensures
            r@ == "Failed to delete expired session: "@ + self.source@,
    {
        prefixed("Failed to delete expired session: ", self.source.as_str())
    }
}

/// The store failed to migrate session table; `source` says why.
#[derive(Clone, Debug)]
pub struct MigrateSessionTableError {
    pub source: String,
}

impl MigrateSessionTableError {
    /// The message that describes the failure.
    pub fn message(&self) -> (r: String)
        ensures
            r@ == "Failed to migrate session table: "@ + self.source@,
    {
        prefixed("Failed to migrate session table: ", self.source.as_str())
    }
}

} // verus!
