use vstd::prelude::*;

use super::prefixed;

verus! {

/// The store failed to create memo; `source` says why.
#[derive(Clone, Debug)]
pub struct CreateMemoError {
    pub source: String,
}

impl CreateMemoError {
    /// The message that describes the failure.
    pub fn message(&self) -> (r: String)
        ensures
            r@ == "Failed to create memo: "@ + self.source@,
    {
        prefixed("Failed to create memo: ", self.source.as_str())
    }
}

/// The store failed to list memo; `source` says why.
#[derive(Clone, Debug)]
pub struct ListMemoError {
    pub source: String,
}

impl ListMemoError {
    /// The message that describes the failure.
    pub fn message(&self) -> (r: String)
        ensures
            r@ == "Failed to list memo: "@ + self.source@,
    {
        prefixed("Failed to list memo: ", self.source.as_str())
    }
}

/// The store failed to delete memo; `source` says why.
#[derive(Clone, Debug)]
pub struct DeleteMemoError {
    pub source: String,
}

impl DeleteMemoError {
    /// The message that describes the failure.
    pub fn message(&self) -> (r: String)
        ensures
            r@ == "Failed to delete memo: "@ + self.source@,
    {
        prefixed("Failed to delete memo: ", self.source.as_str())
    }
}

/// The store failed to update memo; `source` says why.
#[derive(Clone, Debug)]
pub struct UpdateMemoError {
    pub source: String,
}

impl UpdateMemoError {
    /// The message that describes the failure.
    pub fn message(&self) -> (r: String)
        ensures
            r@ == "Failed to update memo: "@ + self.source@,
    {
        prefixed("Failed to update memo: ", self.source.as_str())
    }
}

} // verus!
