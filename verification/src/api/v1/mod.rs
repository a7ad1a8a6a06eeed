use vstd::prelude::*;

pub mod gen;
pub mod memo;
pub mod resource;
pub mod sign;
pub mod system;
pub mod user;
pub mod user_setting;

verus! {

} // verus!
