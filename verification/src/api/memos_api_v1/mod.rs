use vstd::prelude::*;

pub mod sign;
pub mod user;

verus! {

} // verus!
