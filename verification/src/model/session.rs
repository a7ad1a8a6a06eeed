use vstd::prelude::*;

verus! {

/// A stored login session.
#[derive(Clone, Debug, Default)]
pub struct Session {
    pub id: String,
    pub data: Vec<u8>,
    pub expiry_date: i64,
}

} // verus!
