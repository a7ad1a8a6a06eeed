use vstd::prelude::*;

verus! {

/// What an upload is answered with: the stored resource.
#[derive(Clone, Debug, Default)]
pub struct CreateResourceResponse {
    pub id: i32,
    pub creator_id: i32,
    pub created_ts: i64,
    pub updated_ts: i64,
    pub filename: String,
    pub external_link: String,
    pub type_: String,
    pub size: i64,
}

} // verus!
