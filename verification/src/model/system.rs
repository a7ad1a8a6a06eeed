use vstd::prelude::*;

verus! {

/// A stored system setting: its name, its value and what it is for.
#[derive(Clone, Debug, Default)]
pub struct SystemSetting {
    pub name: String,
    pub value: String,
    pub description: String,
}

} // verus!
