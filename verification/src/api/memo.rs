use vstd::prelude::*;

use super::prefix::{
    extract_id, extract_name, extracted_id, extracted_name, format_name, format_name_spec,
    ExtractName, FormatName, MEMO_NAME_PREFIX, USER_NAME_PREFIX,
};
use super::to_timestamp;
use super::user::timestamp_of;
use super::prefix::{get_id_parent_token, id_parent_token, NameErrorKind, error_kind};
use super::v1::gen::{
    DeleteMemoRequest, Direction, GetMemoRequest, ListMemoPropertiesRequest, ListMemosRequest, Memo, MemoProperty,
    PageToken, SetMemoResourcesRequest, UpdateMemoRequest,
};
use crate::model::filter::{parse_filter, FilterError, SearchFilterView};
use crate::model::memo::{FindMemo, FindMemoPayload, FindMemoPayloadView, FindMemoView, SearchMemosFilter};
use crate::text::{push_char_pub, str_chars};
use crate::model::gen::Property;
use crate::model::memo::UpdateMemo;
use crate::pb::memos_api_v2::{
    row_status_number, row_status_of_number, visibility_number, visibility_of_number, RowStatus, Visibility,
};
use crate::text::str_eq;
use vstd::utf8::{decode_utf8, encode_utf8, is_char_boundary};

verus! {

broadcast use {vstd::string::group_string_axioms, vstd::utf8::encode_utf8_decode_utf8};

impl ExtractName for Memo {
    open spec fn spec_full_name(&self) -> Seq<char> {
        self.name@
    }

    open spec fn spec_prefix(&self) -> Seq<char> {
        MEMO_NAME_PREFIX@
    }

    fn get_name(&self) -> (r: String) {
        extract_name(&self.name, MEMO_NAME_PREFIX)
    }

    fn get_id(&self) -> (r: Result<i32, super::prefix::Error>) {
        extract_id(&self.name, MEMO_NAME_PREFIX)
    }
}

impl ExtractName for GetMemoRequest {
    open spec fn spec_full_name(&self) -> Seq<char> {
        self.name@
    }

    open spec fn spec_prefix(&self) -> Seq<char> {
        MEMO_NAME_PREFIX@
    }

    fn get_name(&self) -> (r: String) {
        extract_name(&self.name, MEMO_NAME_PREFIX)
    }

    fn get_id(&self) -> (r: Result<i32, super::prefix::Error>) {
        extract_id(&self.name, MEMO_NAME_PREFIX)
    }
}

impl ExtractName for DeleteMemoRequest {
    open spec fn spec_full_name(&self) -> Seq<char> {
        self.name@
    }

    open spec fn spec_prefix(&self) -> Seq<char> {
        MEMO_NAME_PREFIX@
    }

    fn get_name(&self) -> (r: String) {
        extract_name(&self.name, MEMO_NAME_PREFIX)
    }

    fn get_id(&self) -> (r: Result<i32, super::prefix::Error>) {
        extract_id(&self.name, MEMO_NAME_PREFIX)
    }
}

impl ExtractName for SetMemoResourcesRequest {
    open spec fn spec_full_name(&self) -> Seq<char> {
        self.name@
    }

    open spec fn spec_prefix(&self) -> Seq<char> {
        MEMO_NAME_PREFIX@
    }

    fn get_name(&self) -> (r: String) {
        extract_name(&self.name, MEMO_NAME_PREFIX)
    }

    fn get_id(&self) -> (r: Result<i32, super::prefix::Error>) {
        extract_id(&self.name, MEMO_NAME_PREFIX)
    }
}

impl ExtractName for ListMemoPropertiesRequest {
    open spec fn spec_full_name(&self) -> Seq<char> {
        self.name@
    }

    open spec fn spec_prefix(&self) -> Seq<char> {
        MEMO_NAME_PREFIX@
    }

    fn get_name(&self) -> (r: String) {
        extract_name(&self.name, MEMO_NAME_PREFIX)
    }

    fn get_id(&self) -> (r: Result<i32, super::prefix::Error>) {
        extract_id(&self.name, MEMO_NAME_PREFIX)
    }
}

impl FormatName for crate::model::memo::Memo {
    open spec fn spec_name(&self) -> Seq<char> {
        format_name_spec(MEMO_NAME_PREFIX@, self.id as int)
    }

    fn get_name(&self) -> (r: String) {
        format_name(MEMO_NAME_PREFIX, self.id as i64)
    }
}

/// The mathematical content of an `UpdateMemo`.
pub struct UpdateMemoView {
    pub id: i32,
    pub creator_id: i32,
    pub content: Option<Seq<char>>,
    pub visibility: Option<Visibility>,
    pub row_status: Option<RowStatus>,
    pub pinned: Option<bool>,
    pub payload_set: bool,
}

impl View for UpdateMemo {
    type V = UpdateMemoView;

    open spec fn view(&self) -> UpdateMemoView {
        UpdateMemoView {
            id: self.id,
            creator_id: self.creator_id,
            content: self.content.deep_view(),
            visibility: self.visibility,
            row_status: self.row_status,
            pinned: self.pinned,
            payload_set: self.payload is Some,
        }
    }
}

/// The update after the field-mask path `path` of `memo` is taken in.
pub open spec fn apply_update_path(u: UpdateMemoView, path: Seq<char>, memo: Memo) -> UpdateMemoView {
    if path == "content"@ {
        UpdateMemoView { content: Some(memo.content@), ..u }
    } else if path == "visibility"@ {
        UpdateMemoView { visibility: visibility_of_number(memo.visibility), ..u }
    } else if path == "row_status"@ {
        UpdateMemoView { row_status: row_status_of_number(memo.row_status), ..u }
    } else if path == "pinned"@ {
        UpdateMemoView { pinned: Some(memo.pinned), ..u }
    } else {
        u
    }
}

/// The update after the paths are taken in, in order.
pub open spec fn apply_update_paths(u: UpdateMemoView, paths: Seq<Seq<char>>, memo: Memo) -> UpdateMemoView
    decreases paths.len(),
{
    if paths.len() == 0 {
        u
    } else {
        apply_update_path(apply_update_paths(u, paths.drop_last(), memo), paths.last(), memo)
    }
}

/// The update that changes nothing of the memo numbered `id`.
pub open spec fn empty_update(id: i32) -> UpdateMemoView {
    UpdateMemoView {
        id,
        creator_id: 0,
        content: None,
        visibility: None,
        row_status: None,
        pinned: None,
        payload_set: false,
    }
}

impl UpdateMemo {
    /// The update that a request asks for: the fields of its memo that its mask names.
    /// The id is read from the name of the memo, `0` when it does not parse.
    pub fn from_request(value: &UpdateMemoRequest) -> (r: Self)
        ensures
            match (value.memo, value.update_mask) {
                (Some(memo), Some(mask)) => r@ == apply_update_paths(
                    empty_update(
                        match extracted_id(memo.name@, MEMO_NAME_PREFIX@) {
                            Ok(v) => v,
                            Err(_) => 0,
                        },
                    ),
                    mask.paths.deep_view(),
                    memo,
                ),
                _ => r@ == empty_update(0),
            },
    {
        let mut update = UpdateMemo {
            id: 0,
            creator_id: 0,
            content: None,
            visibility: None,
            row_status: None,
            pinned: None,
            payload: None,
        };
        match (&value.memo, &value.update_mask) {
            (Some(memo), Some(field_mask)) => {
                update.id = match memo.get_id() {
                    Ok(v) => v,
                    Err(_) => 0,
                };
                let ghost start = update@;
                let paths = &field_mask.paths;
                let ghost ps = paths.deep_view();
                for i in 0..paths.len()
                    invariant
                        ps == paths.deep_view(),
                        update@ == apply_update_paths(start, ps.take(i as int), *memo),
                {
                    proof {
                        reveal_strlit("content");
                        reveal_strlit("visibility");
                        reveal_strlit("row_status");
                        reveal_strlit("pinned");
                    }
                    assert(ps.take(i + 1).drop_last() == ps.take(i as int));
                    assert(ps.take(i + 1).last() == paths[i as int]@);
                    let path = paths[i].as_str();
                    if str_eq(path, "content") {
                        update.content = Some(memo.content.clone());
                    } else if str_eq(path, "visibility") {
                        update.visibility = Visibility::from_i32(memo.visibility);
                    } else if str_eq(path, "row_status") {
                        update.row_status = RowStatus::from_i32(memo.row_status);
                    } else if str_eq(path, "pinned") {
                        update.pinned = Some(memo.pinned);
                    }
                }
                assert(ps.take(paths.len() as int) == ps);
            },
            _ => {},
        }
        update
    }
}

impl MemoProperty {
    /// The v1 view of a stored property.
    pub fn from_property(value: Property) -> (r: Self)
        ensures
            r.tags == value.tags,
            r.has_link == value.has_link,
            r.has_task_list == value.has_task_list,
            r.has_code == value.has_code,
            r.has_incomplete_tasks == value.has_incomplete_tasks,
    {
        MemoProperty {
            tags: value.tags,
            has_link: value.has_link,
            has_task_list: value.has_task_list,
            has_code: value.has_code,
            has_incomplete_tasks: value.has_incomplete_tasks,
        }
    }
}

/// The characters of a snippet of `content`: its first 99 bytes when they end on a
/// character boundary, then `...`.
pub open spec fn snippet_of(content: Seq<char>) -> Seq<char> {
    let bytes = encode_utf8(content);
    if is_char_boundary(bytes, 99) {
        decode_utf8(bytes.subrange(0, 99)) + "..."@
    } else {
        "..."@
    }
}

/// `format!("{}...", content.get(0..99).unwrap_or(""))`.
pub fn snippet(content: &str) -> (r: String)
    ensures
        r@ == snippet_of(content@),
{
    let mut s = if content.is_char_boundary(99) {
        let (head, _) = content.split_at(99);
        proof {
            vstd::utf8::encode_utf8_decode_utf8(head@);
        }
        String::from_str(head)
    } else {
        String::new()
    };
    s.append("...");
    s
}

impl Memo {
    /// The v1 view of a stored memo.
    pub fn from_model(value: crate::model::memo::Memo) -> (r: Self)
        ensures
            r.name@ == format_name_spec(MEMO_NAME_PREFIX@, value.id as int),
            r.uid == value.uid,
            r.row_status == row_status_number(value.row_status),
            r.creator@ == format_name_spec(USER_NAME_PREFIX@, value.creator_id as int),
            r.create_time == timestamp_of(value.created_ts),
            r.update_time == timestamp_of(value.updated_ts),
            r.display_time == timestamp_of(value.updated_ts),
            r.content == value.content,
            r.visibility == visibility_number(value.visibility),
            r.pinned == value.pinned,
            r.snippet@ == snippet_of(value.content@),
            r.tags@.len() == 0,
            r.parent_id is None,
            r.resources@.len() == 0,
            r.relations@.len() == 0,
            r.reactions@.len() == 0,
            r.parent is None,
            value.payload.property is None ==> r.property is None,
            value.payload.property matches Some(p) ==> r.property matches Some(q) && q.tags == p.tags
                && q.has_link == p.has_link && q.has_task_list == p.has_task_list && q.has_code == p.has_code
                && q.has_incomplete_tasks == p.has_incomplete_tasks,
    {
        let name = value.get_name();
        let snippet = snippet(value.content.as_str());
        let creator = format_name(USER_NAME_PREFIX, value.creator_id as i64);
        let property = match value.payload.property {
            Some(p) => Some(MemoProperty::from_property(p)),
            None => None,
        };
        Memo {
            name,
            uid: value.uid,
            row_status: value.row_status.as_i32(),
            creator,
            create_time: to_timestamp(value.created_ts),
            update_time: to_timestamp(value.updated_ts),
            display_time: to_timestamp(value.updated_ts),
            content: value.content,
            visibility: value.visibility.as_i32(),
            tags: Vec::new(),
            pinned: value.pinned,
            parent_id: None,
            resources: Vec::new(),
            relations: Vec::new(),
            reactions: Vec::new(),
            property,
            parent: None,
            snippet,
        }
    }
}

/// Why a request for a page of memos was refused.
#[derive(Clone, Debug)]
pub enum Error {
    /// The filter names a creator that is not `users/{id}`.
    InvalidUsername { source: super::prefix::Error },
    /// The filter does not parse.
    FilterDecode { source: FilterError },
    /// The page token is not the JSON text of a page token; `source` says why.
    PageTokenDecode { source: String },
}

/// The text with each `'` replaced by `"`.
pub open spec fn single_to_double_quotes(s: Seq<char>) -> Seq<char> {
    s.map_values(|c: char| if c == '\'' { '"' } else { c })
}

/// `s.replace('\'', "\"")`.
pub fn replace_single_quotes(s: &str) -> (r: String)
    ensures
        r@ == single_to_double_quotes(s@),
{
    let cs = str_chars(s);
    let mut out = String::new();
    for i in 0..cs.len()
        invariant
            cs@ == s@,
            out@ == single_to_double_quotes(cs@.take(i as int)),
    {
        let c = cs[i];
        push_char_pub(&mut out, if c == '\'' { '"' } else { c });
        assert(single_to_double_quotes(cs@.take(i + 1)) =~= single_to_double_quotes(cs@.take(i as int)).push(
            if c == '\'' { '"' } else { c },
        ));
    }
    assert(cs@.take(cs.len() as int) == cs@);
    out
}

/// The search that a request for a page of memos asks for, given the filter it holds,
/// the creator that the filter names and the page.
pub open spec fn find_for_list(f: SearchFilterView, creator_id: Option<i32>, page: PageToken) -> FindMemoView {
    FindMemoView {
        id: None,
        uid: None,
        row_status: f.row_status,
        creator_id,
        created_ts_after: None,
        created_ts_before: None,
        updated_ts_after: f.display_time_after,
        updated_ts_before: f.display_time_before,
        content_search: match f.content_search {
            Some(c) => c,
            None => Seq::<Seq<char>>::empty(),
        },
        visibility_list: match f.visibilities {
            Some(v) => v,
            None => Seq::<Visibility>::empty(),
        },
        payload_find: if f.tag_search is Some || f.has_code is Some || f.has_link is Some || f.has_task_list is Some
            || f.has_incomplete_tasks is Some {
            Some(
                FindMemoPayloadView {
                    raw: None,
                    tags: f.tag_search,
                    has_link: f.has_link == Some(true),
                    has_task_list: f.has_task_list == Some(true),
                    has_code: f.has_code == Some(true),
                    has_incomplete_tasks: f.has_incomplete_tasks == Some(true),
                },
            )
        } else {
            None
        },
        exclude_content: false,
        exclude_comments: true,
        random: f.random == Some(true),
        page_token: Some(page),
        order_by_updated_ts: true,
        order_by_pinned: f.order_by_pinned == Some(true),
        only_payload: false,
        filter: Seq::<char>::empty(),
        direction: Direction::Unspecified,
    }
}

/// The id of the creator that a filter names, if it names one.
pub open spec fn creator_of(f: SearchFilterView) -> Result<Option<i32>, NameErrorKind> {
    match f.creator {
        None => Ok(None),
        Some(c) => match id_parent_token(c, USER_NAME_PREFIX@) {
            Ok(v) => Ok(Some(v as i32)),
            Err(e) => Err(e),
        },
    }
}

fn bool_or_false(b: Option<bool>) -> (r: bool)
    ensures
        r == (b == Some(true)),
{
    match b {
        Some(x) => x,
        None => false,
    }
}

impl ListMemosRequest {
    /// The search that the request asks for. The filter is read with `'` as `"`. The
    /// page is `page_token`, the decoded page token of the request: `None` when the
    /// request holds none, in which case the page starts at 0 and holds `page_size` memos.
    pub fn to_find_memo(&self, page_token: Option<Result<PageToken, String>>) -> (r: Result<FindMemo, Error>)
        requires
            page_token is None <==> self.page_token@.len() == 0,
        ensures
            match parse_filter(single_to_double_quotes(self.filter@)) {
                Err(e) => r matches Err(Error::FilterDecode { source }) && source == e,
                Ok(f) => match creator_of(f) {
                    Err(k) => r matches Err(Error::InvalidUsername { source }) && error_kind(source) == k,
                    Ok(creator_id) => match page_token {
                        Some(Err(msg)) => r matches Err(Error::PageTokenDecode { source }) && source == msg,
                        Some(Ok(page)) => r matches Ok(find) && find@ == find_for_list(f, creator_id, page),
                        None => r matches Ok(find) && find@ == find_for_list(
                            f,
                            creator_id,
                            PageToken { limit: self.page_size, offset: 0 },
                        ),
                    },
                },
            },
    {
        let text = replace_single_quotes(self.filter.as_str());
        let filter = match SearchMemosFilter::parse(text.as_str()) {
            Ok(f) => f,
            Err(e) => {
                return Err(Error::FilterDecode { source: e });
            },
        };
        let ghost fv = filter@;
        let creator_id = match &filter.creator {
            None => None,
            Some(c) => match get_id_parent_token(c.as_str(), USER_NAME_PREFIX) {
                Ok(v) => Some(v),
                Err(e) => {
                    return Err(Error::InvalidUsername { source: e });
                },
            },
        };
        let page = match page_token {
            Some(Ok(p)) => p,
            Some(Err(msg)) => {
                return Err(Error::PageTokenDecode { source: msg });
            },
            None => PageToken { limit: self.page_size, offset: 0 },
        };
        let SearchMemosFilter {
            content_search,
            visibilities,
            tag_search,
            order_by_pinned,
            display_time_before,
            display_time_after,
            creator: _,
            uid: _,
            row_status,
            random,
            limit: _,
            include_comments: _,
            has_link,
            has_task_list,
            has_code,
            has_incomplete_tasks,
        } = filter;
        let payload_find = if tag_search.is_some() || has_code.is_some() || has_link.is_some() || has_task_list.is_some()
            || has_incomplete_tasks.is_some() {
            Some(
                FindMemoPayload {
                    raw: None,
                    tags: tag_search,
                    has_link: bool_or_false(has_link),
                    has_task_list: bool_or_false(has_task_list),
                    has_code: bool_or_false(has_code),
                    has_incomplete_tasks: bool_or_false(has_incomplete_tasks),
                },
            )
        } else {
            None
        };
        let content_search = match content_search {
            Some(c) => c,
            None => {
                let v: Vec<String> = Vec::new();
                assert(v.deep_view() =~= Seq::<Seq<char>>::empty());
                v
            },
        };
        let visibility_list = match visibilities {
            Some(v) => v,
            None => Vec::new(),
        };
        let find = FindMemo {
            id: None,
            uid: None,
            row_status,
            creator_id,
            created_ts_after: None,
            created_ts_before: None,
            updated_ts_after: display_time_after,
            updated_ts_before: display_time_before,
            content_search,
            visibility_list,
            payload_find,
            exclude_content: false,
            exclude_comments: true,
            random: bool_or_false(random),
            page_token: Some(page),
            order_by_updated_ts: true,
            order_by_pinned: bool_or_false(order_by_pinned),
            only_payload: false,
            filter: String::new(),
            direction: Direction::Unspecified,
        };
        assert(find@ == find_for_list(fv, creator_id, page));
        Ok(find)
    }
}

/// An update follows its field mask: each field that a path of the mask names takes
/// the request memo's value; each field that no path names keeps what it had; the id,
/// the creator and the payload never change.
pub proof fn lemma_update_follows_mask(u: UpdateMemoView, paths: Seq<Seq<char>>, memo: Memo)
    ensures
        apply_update_paths(u, paths, memo).id == u.id,
        apply_update_paths(u, paths, memo).creator_id == u.creator_id,
        apply_update_paths(u, paths, memo).payload_set == u.payload_set,
        paths.contains("pinned"@) ==> apply_update_paths(u, paths, memo).pinned == Some(memo.pinned),
        !paths.contains("pinned"@) ==> apply_update_paths(u, paths, memo).pinned == u.pinned,
        paths.contains("content"@) ==> apply_update_paths(u, paths, memo).content == Some(memo.content@),
        !paths.contains("content"@) ==> apply_update_paths(u, paths, memo).content == u.content,
        paths.contains("visibility"@) ==> apply_update_paths(u, paths, memo).visibility == visibility_of_number(
            memo.visibility,
        ),
        !paths.contains("visibility"@) ==> apply_update_paths(u, paths, memo).visibility == u.visibility,
        paths.contains("row_status"@) ==> apply_update_paths(u, paths, memo).row_status == row_status_of_number(
            memo.row_status,
        ),
        !paths.contains("row_status"@) ==> apply_update_paths(u, paths, memo).row_status == u.row_status,
    decreases paths.len(),
{
    reveal_strlit("pinned");
    reveal_strlit("content");
    reveal_strlit("visibility");
    reveal_strlit("row_status");
    assert("pinned"@.len() == 6);
    assert("content"@.len() == 7);
    assert("visibility"@.len() == 10);
    assert("row_status"@.len() == 10);
    assert("visibility"@[0] == 'v');
    assert("row_status"@[0] == 'r');
    if paths.len() > 0 {
        let init = paths.drop_last();
        lemma_update_follows_mask(u, init, memo);
        assert(paths =~= init.push(paths.last()));
        assert forall|x: Seq<char>| paths.contains(x) <==> (init.contains(x) || x == paths.last()) by {
            if paths.contains(x) {
                let k = choose|k: int| 0 <= k < paths.len() && paths[k] == x;
                if k < init.len() {
                    assert(init[k] == x);
                }
            }
            if init.contains(x) {
                let k = choose|k: int| 0 <= k < init.len() && init[k] == x;
                assert(paths[k] == x);
            }
            if x == paths.last() {
                assert(paths[paths.len() - 1] == x);
            }
        }
    }
}

/// The time window of a listed search is the filter's: its lower bound is the
/// filter's `display_time_after` and its upper bound the filter's
/// `display_time_before`; the creation times are not bounded.
pub proof fn lemma_list_window(f: SearchFilterView, creator_id: Option<i32>, page: PageToken)
    ensures
        find_for_list(f, creator_id, page).updated_ts_after == f.display_time_after,
        find_for_list(f, creator_id, page).updated_ts_before == f.display_time_before,
        find_for_list(f, creator_id, page).created_ts_after is None,
        find_for_list(f, creator_id, page).created_ts_before is None,
{
}

/// A listed search asks for what its filter names: the filter's row status, the given
/// creator and page, the filter's search words and visibilities (none where it names
/// none), its tags, a random order or a pinned-first order only where the filter asks
/// for one, and no comments.
pub proof fn lemma_list_follows_filter(f: SearchFilterView, creator_id: Option<i32>, page: PageToken)
    ensures
        find_for_list(f, creator_id, page).row_status == f.row_status,
        find_for_list(f, creator_id, page).creator_id == creator_id,
        find_for_list(f, creator_id, page).page_token == Some(page),
        f.content_search matches Some(c) ==> find_for_list(f, creator_id, page).content_search == c,
        f.content_search is None ==> find_for_list(f, creator_id, page).content_search.len() == 0,
        f.visibilities matches Some(v) ==> find_for_list(f, creator_id, page).visibility_list == v,
        f.visibilities is None ==> find_for_list(f, creator_id, page).visibility_list.len() == 0,
        f.tag_search is Some ==> (find_for_list(f, creator_id, page).payload_find matches Some(p) && p.tags
            == f.tag_search),
        find_for_list(f, creator_id, page).random <==> f.random == Some(true),
        find_for_list(f, creator_id, page).order_by_pinned <==> f.order_by_pinned == Some(true),
        find_for_list(f, creator_id, page).exclude_comments,
        find_for_list(f, creator_id, page).id is None,
{
}

} // verus!
