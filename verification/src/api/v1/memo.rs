use vstd::prelude::*;

verus! {

/// The query of a REST request for a list of memos.
#[derive(Clone, Debug, Default)]
pub struct ListMemoRequest {
    pub creator_id: Option<i32>,
    pub creator_username: Option<String>,
    pub row_status: Option<String>,
    pub pinned: bool,
    pub tag: Option<String>,
    pub content: Option<String>,
    pub limit: Option<isize>,
    pub offset: Option<isize>,
}

} // verus!
