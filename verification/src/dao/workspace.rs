use vstd::prelude::*;

use super::prefixed;

verus! {

/// The store failed to find workspace setting; `source` says why.
#[derive(Clone, Debug)]
pub struct FindWorkspaceSettingError {
    pub source: String,
}

impl FindWorkspaceSettingError {
    /// The message that describes the failure.
    pub fn message(&self) -> (r: String)
        ensures
            r@ == "Failed to find workspace setting: "@ + self.source@,
    {
        prefixed("Failed to find workspace setting: ", self.source.as_str())
    }
}

} // verus!
