use vstd::prelude::*;

use super::gen::{MemoPayload, Property};
use crate::api::v1::gen::{Direction, PageToken};
use crate::pb::memos_api_v2::{RowStatus, Visibility};

verus! {

/// A memo as it is stored.
#[derive(Clone, Debug, Default)]
pub struct Memo {
    pub id: i32,
    pub uid: String,
    pub row_status: RowStatus,
    pub creator_id: i32,
    pub created_ts: i64,
    pub updated_ts: i64,
    pub content: String,
    pub visibility: Visibility,
    pub pinned: bool,
    pub payload: MemoPayload,
}

/// What a search asks of the payload of memos.
#[derive(Clone, Debug, Default)]
pub struct FindMemoPayload {
    pub raw: Option<String>,
    pub tags: Option<Vec<String>>,
    pub has_link: bool,
    pub has_task_list: bool,
    pub has_code: bool,
    pub has_incomplete_tasks: bool,
}

/// A search for memos.
#[derive(Clone, Debug, Default)]
pub struct FindMemo {
    pub id: Option<i32>,
    pub uid: Option<String>,
    // Standard fields
    pub row_status: Option<RowStatus>,
    pub creator_id: Option<i32>,
    pub created_ts_after: Option<i64>,
    pub created_ts_before: Option<i64>,
    pub updated_ts_after: Option<i64>,
    pub updated_ts_before: Option<i64>,
    // Domain specific fields
    pub content_search: Vec<String>,
    pub visibility_list: Vec<Visibility>,
    pub payload_find: Option<FindMemoPayload>,
    pub exclude_content: bool,
    pub exclude_comments: bool,
    pub random: bool,
    // Pagination
    pub page_token: Option<PageToken>,
    pub order_by_updated_ts: bool,
    pub order_by_pinned: bool,
    // Custom
    pub only_payload: bool,
    /// A filter in the Common Expression Language.
    pub filter: String,
    /// The order of the memos by time.
    pub direction: Direction,
}

/// The fields of a new memo.
#[derive(Clone, Debug, Default)]
pub struct CreateMemo {
    pub creator_id: i32,
    pub uid: String,
    pub content: String,
    pub visibility: Visibility,
    pub payload: MemoPayload,
}

/// The fields of a memo to change; `None` leaves a field as it is.
#[derive(Clone, Debug, Default)]
pub struct UpdateMemo {
    pub id: i32,
    pub creator_id: i32,
    pub content: Option<String>,
    pub visibility: Option<Visibility>,
    pub row_status: Option<RowStatus>,
    pub pinned: Option<bool>,
    pub payload: Option<MemoPayload>,
}

/// What a search filter of the v1 API asks for; `None` where it says nothing.
#[derive(Clone, Debug, Default)]
pub struct SearchMemosFilter {
    pub content_search: Option<Vec<String>>,
    pub visibilities: Option<Vec<Visibility>>,
    pub tag_search: Option<Vec<String>>,
    pub order_by_pinned: Option<bool>,
    pub display_time_before: Option<i64>,
    pub display_time_after: Option<i64>,
    pub creator: Option<String>,
    pub uid: Option<String>,
    pub row_status: Option<RowStatus>,
    pub random: Option<bool>,
    pub limit: Option<i32>,
    pub include_comments: Option<bool>,
    pub has_link: Option<bool>,
    pub has_task_list: Option<bool>,
    pub has_code: Option<bool>,
    pub has_incomplete_tasks: Option<bool>,
}

// ---------------------------------------------------------------------------
// Payloads
// ---------------------------------------------------------------------------

/// The mathematical content of a `Property`.
pub struct PropertyView {
    pub tags: Seq<Seq<char>>,
    pub has_link: bool,
    pub has_task_list: bool,
    pub has_code: bool,
    pub has_incomplete_tasks: bool,
}

impl View for Property {
    type V = PropertyView;

    open spec fn view(&self) -> PropertyView {
        PropertyView {
            tags: self.tags.deep_view(),
            has_link: self.has_link,
            has_task_list: self.has_task_list,
            has_code: self.has_code,
            has_incomplete_tasks: self.has_incomplete_tasks,
        }
    }
}

impl View for MemoPayload {
    type V = Option<PropertyView>;

    open spec fn view(&self) -> Option<PropertyView> {
        match self.property {
            Some(p) => Some(p@),
            None => None,
        }
    }
}

/// Two properties together: the tags of both, in order, and each flag that either has.
pub open spec fn merge_properties(a: PropertyView, b: PropertyView) -> PropertyView {
    PropertyView {
        tags: a.tags + b.tags,
        has_link: a.has_link || b.has_link,
        has_task_list: a.has_task_list || b.has_task_list,
        has_code: a.has_code || b.has_code,
        has_incomplete_tasks: a.has_incomplete_tasks || b.has_incomplete_tasks,
    }
}

/// Two payloads together; a missing property takes nothing away.
pub open spec fn merge_payloads(a: Option<PropertyView>, b: Option<PropertyView>) -> Option<PropertyView> {
    match (a, b) {
        (None, b) => b,
        (Some(p), None) => Some(p),
        (Some(p), Some(q)) => Some(merge_properties(p, q)),
    }
}

/// A property that holds `tags` and no flag.
pub open spec fn tags_property(tags: Seq<Seq<char>>) -> PropertyView {
    PropertyView { tags, has_link: false, has_task_list: false, has_code: false, has_incomplete_tasks: false }
}

fn property_with(tags: Vec<String>, has_link: bool, has_task_list: bool, has_code: bool, has_incomplete_tasks: bool) -> (r: MemoPayload)
    ensures
        r@ == Some(PropertyView { tags: tags.deep_view(), has_link, has_task_list, has_code, has_incomplete_tasks }),
{
    MemoPayload { property: Some(Property { tags, has_link, has_task_list, has_code, has_incomplete_tasks }) }
}

fn no_tags() -> (r: Vec<String>)
    ensures
        r.deep_view() == Seq::<Seq<char>>::empty(),
{
    let r: Vec<String> = Vec::new();
    assert(r.deep_view() =~= Seq::<Seq<char>>::empty());
    r
}

/// The tags of a payload; none where it has no property.
pub open spec fn payload_tags(p: Option<PropertyView>) -> Seq<Seq<char>> {
    match p {
        Some(q) => q.tags,
        None => Seq::empty(),
    }
}

/// The flags of a payload (link, task list, code, incomplete tasks); all unset where
/// it has no property.
pub open spec fn payload_flags(p: Option<PropertyView>) -> (bool, bool, bool, bool) {
    match p {
        Some(q) => (q.has_link, q.has_task_list, q.has_code, q.has_incomplete_tasks),
        None => (false, false, false, false),
    }
}

/// Merging keeps everything of both payloads: the tags of the first, then those of the
/// second; each flag set exactly when either payload sets it; and a property exactly
/// when either has one.
pub proof fn lemma_merge_keeps_both(a: Option<PropertyView>, b: Option<PropertyView>)
    ensures
        payload_tags(merge_payloads(a, b)) == payload_tags(a) + payload_tags(b),
        payload_flags(merge_payloads(a, b)).0 == (payload_flags(a).0 || payload_flags(b).0),
        payload_flags(merge_payloads(a, b)).1 == (payload_flags(a).1 || payload_flags(b).1),
        payload_flags(merge_payloads(a, b)).2 == (payload_flags(a).2 || payload_flags(b).2),
        payload_flags(merge_payloads(a, b)).3 == (payload_flags(a).3 || payload_flags(b).3),
        merge_payloads(a, b) is Some <==> (a is Some || b is Some),
{
    match (a, b) {
        (None, b) => {
            assert(Seq::<Seq<char>>::empty() + payload_tags(b) =~= payload_tags(b));
        },
        (Some(p), None) => {
            assert(payload_tags(a) + Seq::<Seq<char>>::empty() =~= payload_tags(a));
        },
        _ => {},
    }
}

impl MemoPayload {
    /// Adds what `payload` holds to this payload: its tags after ours, and its flags.
    pub fn merge(&mut self, payload: MemoPayload)
        ensures
            final(self)@ == merge_payloads(old(self)@, payload@),
    {
        let mine = self.property.take();
        match (mine, payload.property) {
            (None, theirs) => {
                self.property = theirs;
            },
            (Some(p), None) => {
                self.property = Some(p);
            },
            (Some(p1), Some(p2)) => {
                let mut tags = p1.tags;
                let mut more = p2.tags;
                let ghost t1 = tags.deep_view();
                let ghost t2 = more.deep_view();
                tags.append(&mut more);
                assert(tags.deep_view() =~= t1 + t2);
                self.property = Some(Property {
                    tags,
                    has_link: p1.has_link || p2.has_link,
                    has_task_list: p1.has_task_list || p2.has_task_list,
                    has_code: p1.has_code || p2.has_code,
                    has_incomplete_tasks: p1.has_incomplete_tasks || p2.has_incomplete_tasks,
                });
            },
        }
    }

    /// A payload holding the single tag `tag`.
    pub fn tag(tag: String) -> (r: Self)
        ensures
            r@ == Some(tags_property(seq![tag@])),
    {
        let mut tags = Vec::new();
        tags.push(tag);
        assert(tags.deep_view() =~= seq![tag@]);
        property_with(tags, false, false, false, false)
    }

    /// A payload holding `tags`; no property at all when there are none.
    pub fn tags(tags: Vec<String>) -> (r: Self)
        ensures
            tags.len() == 0 ==> r@ is None,
            tags.len() > 0 ==> r@ == Some(tags_property(tags.deep_view())),
    {
        if tags.len() == 0 {
            MemoPayload { property: None }
        } else {
            property_with(tags, false, false, false, false)
        }
    }

    /// A payload that says the memo holds a link.
    pub fn link() -> (r: Self)
        ensures
            r@ == Some(PropertyView { tags: seq![], has_link: true, has_task_list: false, has_code: false, has_incomplete_tasks: false }),
    {
        property_with(no_tags(), true, false, false, false)
    }

    /// A payload that says the memo holds code.
    pub fn code() -> (r: Self)
        ensures
            r@ == Some(PropertyView { tags: seq![], has_link: false, has_task_list: false, has_code: true, has_incomplete_tasks: false }),
    {
        property_with(no_tags(), false, false, true, false)
    }

    /// A payload that says the memo holds a task list.
    pub fn task() -> (r: Self)
        ensures
            r@ == Some(PropertyView { tags: seq![], has_link: false, has_task_list: true, has_code: false, has_incomplete_tasks: false }),
    {
        property_with(no_tags(), false, true, false, false)
    }

    /// A payload that says the memo holds a task list with tasks left to do.
    pub fn incomplete_task() -> (r: Self)
        ensures
            r@ == Some(PropertyView { tags: seq![], has_link: false, has_task_list: true, has_code: false, has_incomplete_tasks: true }),
    {
        property_with(no_tags(), false, true, false, true)
    }
}

/// Merging payloads does not depend on how the merges are grouped.
pub proof fn lemma_merge_associative(a: Option<PropertyView>, b: Option<PropertyView>, c: Option<PropertyView>)
    ensures
        merge_payloads(merge_payloads(a, b), c) == merge_payloads(a, merge_payloads(b, c)),
{
    match (a, b, c) {
        (Some(p), Some(q), Some(r)) => {
            assert(p.tags + q.tags + r.tags =~= p.tags + (q.tags + r.tags));
        },
        _ => {},
    }
}

/// A payload without property changes nothing when merged, on either side.
pub proof fn lemma_merge_empty(a: Option<PropertyView>)
    ensures
        merge_payloads(a, None) == a,
        merge_payloads(None, a) == a,
{
}

// ---------------------------------------------------------------------------
// Searches
// ---------------------------------------------------------------------------

/// The mathematical content of a `FindMemoPayload`.
pub struct FindMemoPayloadView {
    pub raw: Option<Seq<char>>,
    pub tags: Option<Seq<Seq<char>>>,
    pub has_link: bool,
    pub has_task_list: bool,
    pub has_code: bool,
    pub has_incomplete_tasks: bool,
}

impl View for FindMemoPayload {
    type V = FindMemoPayloadView;

    open spec fn view(&self) -> FindMemoPayloadView {
        FindMemoPayloadView {
            raw: self.raw.deep_view(),
            tags: self.tags.deep_view(),
            has_link: self.has_link,
            has_task_list: self.has_task_list,
            has_code: self.has_code,
            has_incomplete_tasks: self.has_incomplete_tasks,
        }
    }
}

/// The mathematical content of a `FindMemo`.
pub struct FindMemoView {
    pub id: Option<i32>,
    pub uid: Option<Seq<char>>,
    pub row_status: Option<RowStatus>,
    pub creator_id: Option<i32>,
    pub created_ts_after: Option<i64>,
    pub created_ts_before: Option<i64>,
    pub updated_ts_after: Option<i64>,
    pub updated_ts_before: Option<i64>,
    pub content_search: Seq<Seq<char>>,
    pub visibility_list: Seq<Visibility>,
    pub payload_find: Option<FindMemoPayloadView>,
    pub exclude_content: bool,
    pub exclude_comments: bool,
    pub random: bool,
    pub page_token: Option<PageToken>,
    pub order_by_updated_ts: bool,
    pub order_by_pinned: bool,
    pub only_payload: bool,
    pub filter: Seq<char>,
    pub direction: Direction,
}

impl View for FindMemo {
    type V = FindMemoView;

    open spec fn view(&self) -> FindMemoView {
        FindMemoView {
            id: self.id,
            uid: self.uid.deep_view(),
            row_status: self.row_status,
            creator_id: self.creator_id,
            created_ts_after: self.created_ts_after,
            created_ts_before: self.created_ts_before,
            updated_ts_after: self.updated_ts_after,
            updated_ts_before: self.updated_ts_before,
            content_search: self.content_search.deep_view(),
            visibility_list: self.visibility_list@,
            payload_find: match self.payload_find {
                Some(p) => Some(p@),
                None => None,
            },
            exclude_content: self.exclude_content,
            exclude_comments: self.exclude_comments,
            random: self.random,
            page_token: self.page_token,
            order_by_updated_ts: self.order_by_updated_ts,
            order_by_pinned: self.order_by_pinned,
            only_payload: self.only_payload,
            filter: self.filter@,
            direction: self.direction,
        }
    }
}

/// `a.or(b)`.
pub open spec fn or_else<T>(a: Option<T>, b: Option<T>) -> Option<T> {
    match a {
        Some(x) => Some(x),
        None => b,
    }
}

/// A search completed for the user `user_id` (none when nobody is signed in).
///
/// Without a user only public memos are found. A signed-in user searches their own
/// memos unless the search names another creator, whose public and protected memos
/// are found then. A search for no single memo orders by update time when
/// `display_with_update_time`, else by creation time, and its time bounds are
/// moved onto that time.
pub open spec fn completed_find(f: FindMemoView, user_id: Option<i32>, display_with_update_time: bool) -> FindMemoView {
    let f1 = match user_id {
        Some(u) => match f.creator_id {
            Some(c) => if c != u {
                FindMemoView { visibility_list: seq![Visibility::Public, Visibility::Protected], ..f }
            } else {
                f
            },
            None => FindMemoView { creator_id: Some(u), ..f },
        },
        None => FindMemoView { visibility_list: seq![Visibility::Public], ..f },
    };
    if f1.id is None {
        if display_with_update_time {
            FindMemoView {
                order_by_updated_ts: true,
                updated_ts_after: or_else(f1.updated_ts_after, f1.created_ts_after),
                updated_ts_before: or_else(f1.updated_ts_before, f1.created_ts_before),
                created_ts_after: None,
                created_ts_before: None,
                ..f1
            }
        } else {
            FindMemoView {
                order_by_updated_ts: false,
                created_ts_after: or_else(f1.created_ts_after, f1.updated_ts_after),
                created_ts_before: or_else(f1.created_ts_before, f1.updated_ts_before),
                updated_ts_after: None,
                updated_ts_before: None,
                ..f1
            }
        }
    } else {
        f1
    }
}

fn visibilities(public_only: bool) -> (r: Vec<Visibility>)
    ensures
        public_only ==> r@ == seq![Visibility::Public],
        !public_only ==> r@ == seq![Visibility::Public, Visibility::Protected],
{
    let mut r = Vec::new();
    r.push(Visibility::Public);
    if !public_only {
        r.push(Visibility::Protected);
    }
    r
}

impl FindMemo {
    /// Completes the search for the user `user_id`, as `completed_find` says.
    pub fn completed(&mut self, user_id: Option<i32>, is_display_with_update_time: bool)
        ensures
            final(self)@ == completed_find(old(self)@, user_id, is_display_with_update_time),
    {
        match user_id {
            Some(u) => {
                match self.creator_id {
                    Some(c) => {
                        if c != u {
                            self.visibility_list = visibilities(false);
                        }
                    },
                    None => {
                        self.creator_id = Some(u);
                    },
                }
            },
            None => {
                self.visibility_list = visibilities(true);
            },
        }
        if self.id.is_none() {
            self.order_by_updated_ts = is_display_with_update_time;
            if self.order_by_updated_ts {
                self.updated_ts_after = match self.updated_ts_after {
                    Some(t) => Some(t),
                    None => self.created_ts_after,
                };
                self.updated_ts_before = match self.updated_ts_before {
                    Some(t) => Some(t),
                    None => self.created_ts_before,
                };
                self.created_ts_after = None;
                self.created_ts_before = None;
            } else {
                self.created_ts_after = match self.created_ts_after {
                    Some(t) => Some(t),
                    None => self.updated_ts_after,
                };
                self.created_ts_before = match self.created_ts_before {
                    Some(t) => Some(t),
                    None => self.updated_ts_before,
                };
                self.updated_ts_after = None;
                self.updated_ts_before = None;
            }
        }
    }
}

/// Completing a search a second time, for the same user, changes nothing more.
pub proof fn lemma_completed_idempotent(f: FindMemoView, user_id: Option<i32>, display_with_update_time: bool)
    ensures
        completed_find(completed_find(f, user_id, display_with_update_time), user_id, display_with_update_time)
            == completed_find(f, user_id, display_with_update_time),
{
}

/// Without a user, a completed search finds public memos only.
pub proof fn lemma_completed_anonymous_public(f: FindMemoView, display_with_update_time: bool)
    ensures
        completed_find(f, None, display_with_update_time).visibility_list == seq![Visibility::Public],
{
}

} // verus!
