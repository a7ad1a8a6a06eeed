use vstd::prelude::*;

use super::prefix::USER_NAME_PREFIX;
use crate::pb::memos_api_v2::{ListTagsResponse, Tag};
use crate::text::push_str;

verus! {

broadcast use vstd::string::group_string_axioms;

/// The resource name of the user that `creator` names: `users/{creator}`.
pub open spec fn creator_name(creator: Seq<char>) -> Seq<char> {
    USER_NAME_PREFIX@ + "/"@ + creator
}

impl ListTagsResponse {
    /// The answer that lists `tags`, each with its creator written as a user's resource
    /// name, in the same order.
    pub fn from_tags(tags: Vec<Tag>) -> (r: Self)
        ensures
            r.tags.len() == tags.len(),
            forall|i: int|
                0 <= i < tags.len() ==> (#[trigger] r.tags@[i]).name == tags@[i].name && r.tags@[i].creator@
                    == creator_name(tags@[i].creator@),
    {
        let mut out: Vec<Tag> = Vec::new();
        for i in 0..tags.len()
            invariant
                out.len() == i,
                forall|j: int|
                    0 <= j < i ==> (#[trigger] out@[j]).name == tags@[j].name && out@[j].creator@ == creator_name(
                        tags@[j].creator@,
                    ),
        {
            let t = &tags[i];
            let mut creator = String::new();
            push_str(&mut creator, USER_NAME_PREFIX);
            push_str(&mut creator, "/");
            push_str(&mut creator, t.creator.as_str());
            out.push(Tag { name: t.name.clone(), creator });
        }
        ListTagsResponse { tags: out }
    }
}

} // verus!
