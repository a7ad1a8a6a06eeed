use vstd::prelude::*;

use super::gen::ResourceStorageType;

verus! {

/// A search for resources.
#[derive(Clone, Debug, Default)]
pub struct FindResource {
    pub id: Option<i32>,
    pub uid: Option<String>,
    pub creator_id: Option<i32>,
    pub filename: Option<String>,
    pub get_blob: bool,
    pub memo_id: Option<i32>,
    pub limit: Option<isize>,
    pub offset: Option<isize>,
    pub has_relate_memo: bool,
    pub storage_type: Option<ResourceStorageType>,
}

/// A resource (an uploaded file) as it is stored.
#[derive(Clone, Debug, Default)]
pub struct Resource {
    pub id: i32,
    pub uid: String,
    pub creator_id: i32,
    pub created_ts: i64,
    pub updated_ts: i64,
    pub filename: String,
    pub blob: Vec<u8>,
    pub type_: String,
    pub size: usize,
    pub storage_type: ResourceStorageType,
    pub reference: String,
    /// The payload, as the JSON text that is stored.
    pub payload: String,
    pub memo_id: Option<i32>,
}

/// The query of a request for the content of a resource.
#[derive(Clone, Debug, Default)]
pub struct ResourceQry {
    pub thumbnail: Option<String>,
}

} // verus!
