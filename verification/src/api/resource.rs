use vstd::prelude::*;

use super::prefix::{
    extract_id, extract_name, format_name, format_name_spec, get_id_parent_token, id_parent_token, Error,
    ExtractName, FormatName, NameErrorKind, MEMO_NAME_PREFIX, RESOURCE_NAME_PREFIX,
};
use super::to_timestamp;
use super::user::timestamp_of;
use super::v1::gen::{DeleteResourceRequest, GetResourceRequest, Resource};
use crate::model::gen::ResourceStorageType;

verus! {

broadcast use vstd::string::group_string_axioms;

impl ExtractName for Resource {
    open spec fn spec_full_name(&self) -> Seq<char> {
        self.name@
    }

    open spec fn spec_prefix(&self) -> Seq<char> {
        RESOURCE_NAME_PREFIX@
    }

    fn get_name(&self) -> (r: String) {
        extract_name(&self.name, RESOURCE_NAME_PREFIX)
    }

    fn get_id(&self) -> (r: Result<i32, Error>) {
        extract_id(&self.name, RESOURCE_NAME_PREFIX)
    }
}

impl ExtractName for GetResourceRequest {
    open spec fn spec_full_name(&self) -> Seq<char> {
        self.name@
    }

    open spec fn spec_prefix(&self) -> Seq<char> {
        RESOURCE_NAME_PREFIX@
    }

    fn get_name(&self) -> (r: String) {
        extract_name(&self.name, RESOURCE_NAME_PREFIX)
    }

    fn get_id(&self) -> (r: Result<i32, super::prefix::Error>) {
        extract_id(&self.name, RESOURCE_NAME_PREFIX)
    }
}

impl ExtractName for DeleteResourceRequest {
    open spec fn spec_full_name(&self) -> Seq<char> {
        self.name@
    }

    open spec fn spec_prefix(&self) -> Seq<char> {
        RESOURCE_NAME_PREFIX@
    }

    fn get_name(&self) -> (r: String) {
        extract_name(&self.name, RESOURCE_NAME_PREFIX)
    }

    fn get_id(&self) -> (r: Result<i32, super::prefix::Error>) {
        extract_id(&self.name, RESOURCE_NAME_PREFIX)
    }
}

impl FormatName for crate::model::resource::Resource {
    open spec fn spec_name(&self) -> Seq<char> {
        format_name_spec(RESOURCE_NAME_PREFIX@, self.id as int)
    }

    fn get_name(&self) -> (r: String) {
        format_name(RESOURCE_NAME_PREFIX, self.id as i64)
    }
}

/// The id of the memo that a resource is attached to: the id in its memo name `memos/{id}`.
pub open spec fn memo_of(memo: Option<String>) -> Option<i32> {
    match memo {
        None => None,
        Some(m) => match id_parent_token(m@, MEMO_NAME_PREFIX@) {
            Ok(v) => Some(v as i32),
            Err(_) => None,
        },
    }
}

impl Resource {
    /// The id of the memo that the resource is attached to; none when its memo name
    /// is missing or is not `memos/{id}`.
    pub fn get_memo(&self) -> (r: Option<i32>)
        ensures
            r == memo_of(self.memo),
    {
        match &self.memo {
            None => None,
            Some(m) => match get_id_parent_token(m.as_str(), MEMO_NAME_PREFIX) {
                Ok(v) => Some(v),
                Err(_) => None,
            },
        }
    }

    /// The v1 view of a stored resource.
    pub fn from_model(value: crate::model::resource::Resource) -> (r: Self)
        ensures
            r.name@ == format_name_spec(RESOURCE_NAME_PREFIX@, value.id as int),
            r.uid == value.uid,
            r.create_time == timestamp_of(value.created_ts),
            r.filename == value.filename,
            r.content == value.blob,
            r.external_link == value.reference,
            r.type_ == value.type_,
            r.size == value.size as i64,
            value.memo_id is None ==> r.memo is None,
            value.memo_id matches Some(id) ==> r.memo matches Some(m) && m@ == format_name_spec(MEMO_NAME_PREFIX@, id as int),
    {
        let name = value.get_name();
        let memo = match value.memo_id {
            Some(id) => Some(format_name(MEMO_NAME_PREFIX, id as i64)),
            None => None,
        };
        Resource {
            name,
            uid: value.uid,
            create_time: to_timestamp(value.created_ts),
            filename: value.filename,
            content: value.blob,
            external_link: value.reference,
            type_: value.type_,
            size: value.size as i64,
            memo,
        }
    }
}

impl crate::model::resource::Resource {
    /// A new resource to store from an uploaded one: it gets the uid `uid`, its size is
    /// the length of its content, and it is attached to the memo its memo name gives.
    pub fn from_upload(value: Resource, uid: String) -> (r: Self)
        ensures
            r.uid == uid,
            r.filename == value.filename,
            r.blob == value.content,
            r.type_ == value.type_,
            r.size == value.content.len(),
            r.memo_id == memo_of(value.memo),
            r.id == 0 && r.creator_id == 0 && r.created_ts == 0 && r.updated_ts == 0,
            r.storage_type == ResourceStorageType::Unspecified,
            r.reference@.len() == 0 && r.payload@.len() == 0,
    {
        let memo_id = value.get_memo();
        let blob = value.content;
        let size = blob.len();
        crate::model::resource::Resource {
            id: 0,
            uid,
            creator_id: 0,
            created_ts: 0,
            updated_ts: 0,
            filename: value.filename,
            blob,
            type_: value.type_,
            size,
            storage_type: ResourceStorageType::Unspecified,
            reference: String::new(),
            payload: String::new(),
            memo_id,
        }
    }
}

} // verus!
