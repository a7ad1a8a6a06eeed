use vstd::prelude::*;

pub mod auth;
pub mod inbox;
pub mod memo;
pub mod memos_api_v1;
pub mod prefix;
pub mod resource;
pub mod system;
pub mod tag;
pub mod user;
pub mod v1;
pub mod workspace;

use crate::pb::Timestamp;

verus! {

/// The timestamp that `value` seconds since the epoch stand for; `0` stands for none.
pub fn to_timestamp(value: i64) -> (r: Option<Timestamp>)
    ensures
        value == 0 ==> r is None,
        value != 0 ==> r == Some(Timestamp { seconds: value, nanos: 0 }),
{
    if value == 0 {
        None
    } else {
        Some(Timestamp { seconds: value, nanos: 0 })
    }
}

} // verus!
