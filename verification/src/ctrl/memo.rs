use vstd::prelude::*;

use crate::model::memo::{FindMemo, FindMemoView};
use crate::pb::memos_api_v2::Visibility;
use crate::text::{push_str, str_eq};

verus! {

broadcast use vstd::string::group_string_axioms;

/// Why a list of memos was refused.
#[derive(Clone, Debug)]
pub enum Error {
    /// Nobody is signed in and the request names no creator.
    MissingUser,
}

impl Error {
    /// The message that describes the refusal.
    pub fn message(&self) -> (r: String)
        ensures
            r@ == "Missing user to find memo"@,
    {
        let mut r = String::new();
        push_str(&mut r, "Missing user to find memo");
        r
    }
}

/// The visibilities that a viewer may see of the memos of `creator`: a signed-in user
/// sees public and protected memos, and his own private ones; anybody else sees public
/// memos only.
pub open spec fn visible_to(viewer: Option<i32>, creator: Option<i32>) -> Seq<Visibility> {
    match viewer {
        Some(u) => if creator == Some(u) {
            seq![Visibility::Public, Visibility::Protected, Visibility::Private]
        } else {
            seq![Visibility::Public, Visibility::Protected]
        },
        None => seq![Visibility::Public],
    }
}

/// The search that a listing of memos runs: `creator` is the user that the request
/// names by username, if it names one, `viewer` the signed-in user and `display_setting`
/// the stored value of the setting that orders memos by their update time. Without a
/// viewer the search must name a creator.
pub open spec fn scoped_find(
    f: FindMemoView,
    creator: Option<i32>,
    viewer: Option<i32>,
    display_setting: Option<Seq<char>>,
) -> Option<FindMemoView> {
    let creator_id = match creator {
        Some(c) => Some(c),
        None => f.creator_id,
    };
    if viewer is None && creator_id is None {
        None
    } else {
        Some(
            FindMemoView {
                creator_id,
                visibility_list: visible_to(viewer, creator_id),
                order_by_updated_ts: f.order_by_updated_ts || display_setting == Some("true"@),
                ..f
            },
        )
    }
}

/// Scopes a search for memos to what the viewer may see, as `scoped_find` says.
pub fn scope_find_memo(
    find: FindMemo,
    creator: Option<i32>,
    viewer: Option<i32>,
    display_setting: Option<&str>,
) -> (r: Result<FindMemo, Error>)
    ensures
        match scoped_find(
            find@,
            creator,
            viewer,
            match display_setting {
                Some(s) => Some(s@),
                None => None,
            },
        ) {
            Some(f) => r matches Ok(g) && g@ == f,
            None => r is Err,
        },
{
    let mut find = find;
    if let Some(c) = creator {
        find.creator_id = Some(c);
    }
    match viewer {
        Some(u) => {
            let mut visibility_list = vec![Visibility::Public, Visibility::Protected];
            if find.creator_id == Some(u) {
                visibility_list.push(Visibility::Private);
            }
            find.visibility_list = visibility_list;
        },
        None => {
            if find.creator_id.is_none() {
                return Err(Error::MissingUser);
            }
            find.visibility_list = vec![Visibility::Public];
        },
    }
    if let Some(value) = display_setting {
        if str_eq(value, "true") {
            find.order_by_updated_ts = true;
        }
    }
    assert(find.visibility_list@ =~= visible_to(viewer, find.creator_id));
    Ok(find)
}

/// Nobody sees the private memos of another user, and without a signed-in user only
/// public memos are listed.
pub proof fn lemma_private_only_to_creator(viewer: Option<i32>, creator: Option<i32>)
    ensures
        visible_to(viewer, creator).contains(Visibility::Private) ==> viewer is Some && creator == viewer,
        viewer is None ==> visible_to(viewer, creator) == seq![Visibility::Public],
{
    if visible_to(viewer, creator).contains(Visibility::Private) {
        let k = choose|k: int| 0 <= k < visible_to(viewer, creator).len() && visible_to(viewer, creator)[k]
            == Visibility::Private;
        assert(viewer is Some && creator == viewer);
    }
}

} // verus!
