use vstd::prelude::*;

use super::prefix::{extract_id, extract_name, ExtractName, INBOX_NAME_PREFIX};
use super::v1::gen::Inbox;

verus! {

impl ExtractName for Inbox {
    open spec fn spec_full_name(&self) -> Seq<char> {
        self.name@
    }

    open spec fn spec_prefix(&self) -> Seq<char> {
        INBOX_NAME_PREFIX@
    }

    fn get_name(&self) -> (r: String) {
        extract_name(&self.name, INBOX_NAME_PREFIX)
    }

    fn get_id(&self) -> (r: Result<i32, super::prefix::Error>) {
        extract_id(&self.name, INBOX_NAME_PREFIX)
    }
}

} // verus!
