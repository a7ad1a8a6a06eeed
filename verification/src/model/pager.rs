use vstd::prelude::*;

use crate::api::v1::gen::PageToken;

verus! {

/// Paging through a list: fetch one item more than a page holds, to learn
/// whether another page follows.
pub trait Paginator: Sized {
    /// Whether `limit` can be computed without overflow.
    spec fn limit_fits(&self) -> bool;

    /// Whether the token of the next page can be computed without overflow.
    spec fn next_fits(&self) -> bool;

    /// How many items to fetch.
    fn limit(&self) -> i32
        requires
            self.limit_fits(),
    ;

    /// How many items to skip.
    fn offset(&self) -> i32;

    /// Drops the extra item of `data`, if it was fetched, and gives the token of the next page.
    fn next_page<T>(&self, data: &mut Vec<T>) -> Option<Self>
        requires
            self.next_fits(),
    ;
}

impl Paginator for PageToken {
    open spec fn limit_fits(&self) -> bool {
        self.limit < i32::MAX
    }

    open spec fn next_fits(&self) -> bool {
        i32::MIN <= self.offset + self.limit <= i32::MAX
    }

    /// One more item than the page holds.
    fn limit(&self) -> (r: i32)
        ensures
            r == self.limit + 1,
    {
        self.limit + 1
    }

    fn offset(&self) -> (r: i32)
        ensures
            r == self.offset,
    {
        self.offset
    }

    fn next_page<T>(&self, data: &mut Vec<T>) -> (r: Option<Self>)
        ensures
            old(data).len() > self.limit as usize ==> {
                &&& final(data)@ == old(data)@.drop_last()
                &&& r == Some(PageToken { limit: self.limit, offset: (self.offset + self.limit) as i32 })
            },
            !(old(data).len() > self.limit as usize) ==> final(data)@ == old(data)@ && r is None,
    {
        if data.len() > self.limit as usize {
            data.pop();
            Some(PageToken { limit: self.limit, offset: self.offset + self.limit })
        } else {
            None
        }
    }
}

} // verus!
