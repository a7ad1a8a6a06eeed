use vstd::prelude::*;

use super::prefixed;

verus! {

/// The store failed to create resource; `source` says why.
#[derive(Clone, Debug)]
pub struct CreateResourceError {
    pub source: String,
}

impl CreateResourceError {
    /// The message that describes the failure.
    pub fn message(&self) -> (r: String)
        ensures
            r@ == "Failed to create resource: "@ + self.source@,
    {
        prefixed("Failed to create resource: ", self.source.as_str())
    }
}

/// The store failed to set resource; `source` says why.
#[derive(Clone, Debug)]
pub struct SetResourceError {
    pub source: String,
}

impl SetResourceError {
    /// The message that describes the failure.
    pub fn message(&self) -> (r: String)
        ensures
            r@ == "Failed to set resource: "@ + self.source@,
    {
        prefixed("Failed to set resource: ", self.source.as_str())
    }
}

/// The store failed to get resource; `source` says why.
#[derive(Clone, Debug)]
pub struct GetResourceError {
    pub source: String,
}

impl GetResourceError {
    /// The message that describes the failure.
    pub fn message(&self) -> (r: String)
        ensures
            r@ == "Failed to get resource: "@ + self.source@,
    {
        prefixed("Failed to get resource: ", self.source.as_str())
    }
}

/// The store failed to list resource; `source` says why.
#[derive(Clone, Debug)]
pub struct ListResourceError {
    pub source: String,
}

impl ListResourceError {
    /// The message that describes the failure.
    pub fn message(&self) -> (r: String)
        ensures
            r@ == "Failed to list resource: "@ + self.source@,
    {
        prefixed("Failed to list resource: ", self.source.as_str())
    }
}

/// The store failed to delete resource; `source` says why.
#[derive(Clone, Debug)]
pub struct DeleteResourceError {
    pub source: String,
}

impl DeleteResourceError {
    /// The message that describes the failure.
    pub fn message(&self) -> (r: String)
        ensures
            r@ == "Failed to delete resource: "@ + self.source@,
    {
        prefixed("Failed to delete resource: ", self.source.as_str())
    }
}

/// The store failed to relate resource; `source` says why.
#[derive(Clone, Debug)]
pub struct RelateResourceError {
    pub source: String,
}

impl RelateResourceError {
    /// The message that describes the failure.
    pub fn message(&self) -> (r: String)
        ensures
            r@ == "Failed to relate resource: "@ + self.source@,
    {
        prefixed("Failed to relate resource: ", self.source.as_str())
    }
}

} // verus!
