use vstd::prelude::*;

pub mod filter;
pub mod gen;
pub mod memo;
pub mod pager;
pub mod resource;
pub mod session;
pub mod system;
pub mod user;

verus! {

/// The number that a flag is stored as: 1 for true, 0 for false.
pub open spec fn stored_flag(data: bool) -> i8 {
    if data {
        1
    } else {
        0
    }
}

/// The flag that a stored number stands for: only 1 is true.
pub open spec fn flag_of(data: i8) -> bool {
    data == 1
}

/// The number that a flag is stored as.
pub fn bool_to_i8(data: bool) -> (r: i8)
    ensures
        r == stored_flag(data),
{
    if data {
        1
    } else {
        0
    }
}

/// The flag that a stored number stands for.
pub fn bool_from_i8(data: i8) -> (r: bool)
    ensures
        r == flag_of(data),
{
    data == 1
}

/// A stored flag reads back as the flag that was stored.
pub proof fn lemma_bool_roundtrip(data: bool)
    ensures
        flag_of(stored_flag(data)) == data,
{
}

} // verus!
