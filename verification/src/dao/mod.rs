use vstd::prelude::*;

pub mod memo;
pub mod resource;
pub mod session;
pub mod system_setting;
pub mod tag;
pub mod turso;
pub mod user;
pub mod workspace;

use crate::text::push_str;

verus! {

broadcast use vstd::string::group_string_axioms;

/// `prefix` followed by `source`.
pub(crate) fn prefixed(prefix: &str, source: &str) -> (r: String)
    ensures
        r@ == prefix@ + source@,
{
    let mut r = String::new();
    push_str(&mut r, prefix);
    push_str(&mut r, source);
    r
}

} // verus!
