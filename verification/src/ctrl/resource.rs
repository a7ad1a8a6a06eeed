use vstd::prelude::*;

use crate::api::system::{SystemSetting, SystemSettingKey};
use crate::api::v1::resource::CreateResourceResponse;
use crate::model::gen::ResourceStorageType;
use crate::pb::memos_api_v2::Resource;
use crate::text::{chars_start_with, has_prefix, lemma_parse_bounds, parse_int_spec, parse_usize, push_str, str_chars, str_eq};

verus! {

broadcast use vstd::string::group_string_axioms;

/// Bytes in a mebibyte.
pub const MEBI_BYTE: usize = 1048576;

/// The upload limit, in mebibytes, where the setting does not hold a number.
pub const DEFAULT_MAX_MIB: usize = 32;

/// Why an upload was refused.
#[derive(Clone, Debug)]
pub enum Error {
    /// The request holds no file.
    UploadFileNotFound,
    /// The file is not smaller than the limit; `size` is the limit as the setting holds it.
    FileSizeLimit { size: String },
}

impl Error {
    /// The message that describes the refusal.
    pub fn message(&self) -> (r: String)
        ensures
            r@ == match self {
                Error::UploadFileNotFound => "Upload file not found"@,
                Error::FileSizeLimit { size } => "File size exceeds allowed limit of "@ + size@ + " MiB"@,
            },
    {
        let mut r = String::new();
        match self {
            Error::UploadFileNotFound => push_str(&mut r, "Upload file not found"),
            Error::FileSizeLimit { size } => {
                push_str(&mut r, "File size exceeds allowed limit of ");
                push_str(&mut r, size.as_str());
                push_str(&mut r, " MiB");
            },
        }
        r
    }
}

/// The setting that stands for the upload limit when none is stored: 32 MiB.
pub fn default_max_upload_size() -> (r: SystemSetting)
    ensures
        r.name == SystemSettingKey::MaxUploadSizeMiB,
        r.value@ == "32"@,
        r.description@ == "default max upload size"@,
{
    SystemSetting {
        name: SystemSettingKey::MaxUploadSizeMiB,
        value: "32".to_string(),
        description: "default max upload size".to_string(),
    }
}

/// The upload limit, in mebibytes, that a setting value stands for: the number it
/// holds, else 32.
pub open spec fn max_upload_mib(value: Seq<char>) -> int {
    match parse_int_spec(value, 0, usize::MAX as int) {
        Ok(v) => v,
        Err(_) => DEFAULT_MAX_MIB as int,
    }
}

/// The upload limit, in bytes, that a setting value stands for.
pub open spec fn upload_limit(value: Seq<char>) -> int {
    max_upload_mib(value) * MEBI_BYTE as int
}

/// Whether the upload limit that `value` stands for can be counted in a `usize`.
pub fn upload_limit_fits(value: &str) -> (r: bool)
    ensures
        r == (upload_limit(value@) <= usize::MAX),
{
    let mib: usize = match parse_usize(value) {
        Ok(v) => v,
        Err(_) => DEFAULT_MAX_MIB,
    };
    proof { lemma_parse_bounds(value@, 0, usize::MAX as int); }
    assert(mib == max_upload_mib(value@));
    proof { lemma_fits_mebi(mib as int); }
    mib <= usize::MAX / MEBI_BYTE
}

proof fn lemma_fits_mebi(mib: int)
    requires
        mib >= 0,
    ensures
        (mib * MEBI_BYTE as int <= usize::MAX) <==> (mib <= usize::MAX as int / MEBI_BYTE as int),
{
    assert((mib * 1048576 <= usize::MAX) <==> (mib <= usize::MAX as int / 1048576)) by (nonlinear_arith)
        requires
            mib >= 0,
            usize::MAX >= 0,
    ;
}

/// The upload limit, in bytes, that the setting value `value` stands for.
pub fn max_upload_size_bytes(value: &str) -> (r: usize)
    requires
        upload_limit(value@) <= usize::MAX,
    ensures
        r == upload_limit(value@),
{
    let mib: usize = match parse_usize(value) {
        Ok(v) => v,
        Err(_) => DEFAULT_MAX_MIB,
    };
    proof { lemma_parse_bounds(value@, 0, usize::MAX as int); }
    assert(mib == max_upload_mib(value@));
    mib * MEBI_BYTE
}

/// Whether a file of `size` bytes may be uploaded under the limit `setting`: it must be
/// smaller than the limit.
pub fn check_upload_size(setting: &SystemSetting, size: usize) -> (r: Result<(), Error>)
    requires
        upload_limit(setting.value@) <= usize::MAX,
    ensures
        upload_limit(setting.value@) > size ==> r is Ok,
        upload_limit(setting.value@) <= size ==> (r matches Err(Error::FileSizeLimit { size: s })
            && s@ == setting.value@),
{
    let max = max_upload_size_bytes(setting.value.as_str());
    if max > size {
        Ok(())
    } else {
        Err(Error::FileSizeLimit { size: setting.value.clone() })
    }
}

/// Whether a resource is sent as a thumbnail: the query asks for one with `thumbnail=1`
/// and the resource is an image.
pub open spec fn thumbnail_wanted(thumbnail: Option<Seq<char>>, type_: Seq<char>) -> bool {
    thumbnail == Some("1"@) && has_prefix(type_, "image"@)
}

/// Whether a resource of MIME type `type_` is sent as a thumbnail, given the query's
/// `thumbnail` parameter.
pub fn wants_thumbnail(thumbnail: &Option<String>, type_: &str) -> (r: bool)
    ensures
        r == thumbnail_wanted(
            match thumbnail {
                Some(t) => Some(t@),
                None => None,
            },
            type_@,
        ),
{
    match thumbnail {
        Some(t) => {
            if !str_eq(t.as_str(), "1") {
                return false;
            }
            let cs = str_chars(type_);
            let image = str_chars("image");
            chars_start_with(&cs, &image)
        },
        None => false,
    }
}

/// The answer to an upload by the user `creator_id` that stored `res`: both of its
/// times are the time of creation (0 when it has none).
pub open spec fn created_response(res: Resource, creator_id: i32) -> CreateResourceResponse {
    let created_ts = match res.created_ts {
        Some(t) => t.seconds,
        None => 0,
    };
    CreateResourceResponse {
        id: res.id,
        creator_id,
        created_ts,
        updated_ts: created_ts,
        filename: res.filename,
        external_link: res.external_link,
        type_: res.type_,
        size: res.size,
    }
}

impl CreateResourceResponse {
    /// The answer to an upload by the user `creator_id` that stored `res`.
    pub fn from_created(res: Resource, creator_id: i32) -> (r: Self)
        ensures
            r == created_response(res, creator_id),
    {
        let created_ts: i64 = match res.created_ts {
            Some(t) => t.seconds,
            None => 0,
        };
        CreateResourceResponse {
            id: res.id,
            creator_id,
            created_ts,
            updated_ts: created_ts,
            filename: res.filename,
            external_link: res.external_link,
            type_: res.type_,
            size: res.size,
        }
    }
}

/// The MIME type given to an uploaded file: that of its `Content-Type` header, else
/// `multipart/form-data`.
pub fn upload_content_type(header: Option<String>) -> (r: String)
    ensures
        r@ == match header {
            Some(h) => h@,
            None => "multipart/form-data"@,
        },
{
    match header {
        Some(h) => h,
        None => "multipart/form-data".to_string(),
    }
}

/// The first file of an upload request: its name, its MIME type and its content.
#[derive(Clone, Debug)]
pub struct UploadField {
    pub filename: String,
    pub type_: String,
    pub data: Vec<u8>,
}

/// Where an upload stands between two pieces of outside work.
#[derive(Clone, Debug)]
pub enum UploadState {
    /// The first file of the request is to be read.
    AwaitField { user_id: i32 },
    /// The file has been read; the upload limit is to be looked up.
    AwaitSetting { user_id: i32, field: UploadField },
    /// The resource is being stored.
    AwaitCreated { user_id: i32 },
    /// The reply has been given.
    Done,
}

/// What the outside work brought back.
#[derive(Clone, Debug)]
pub enum UploadEvent {
    /// The first file of the request, if there is one.
    FieldRead(Option<UploadField>),
    /// The stored setting that was looked up, if there is one.
    SettingFound(Option<SystemSetting>),
    /// The resource as it was stored.
    Created(Resource),
}

/// The outside work that an upload asks for next.
#[derive(Debug)]
pub enum UploadAction {
    /// Read the first file of the request.
    ReadField,
    /// Look up the stored setting with this key.
    FindSetting(SystemSettingKey),
    /// Store this resource.
    Create(crate::model::resource::Resource),
    /// Answer the request.
    Reply(Result<CreateResourceResponse, Error>),
}

/// The setting value that decides the upload limit: the stored one, else `32`.
pub open spec fn limit_value(setting: Option<SystemSetting>) -> Seq<char> {
    match setting {
        Some(s) => s.value@,
        None => "32"@,
    }
}

/// The resource that an accepted upload of `field` by the user `user_id` stores: the
/// file's name, type and bytes, its size, and the user as its creator; every other
/// field is empty.
pub open spec fn new_resource(res: crate::model::resource::Resource, user_id: i32, field: UploadField) -> bool {
    &&& res.id == 0
    &&& res.uid@ == Seq::<char>::empty()
    &&& res.creator_id == user_id
    &&& res.created_ts == 0
    &&& res.updated_ts == 0
    &&& res.filename@ == field.filename@
    &&& res.blob@ == field.data@
    &&& res.type_@ == field.type_@
    &&& res.size == field.data.len()
    &&& res.storage_type == ResourceStorageType::Unspecified
    &&& res.reference@ == Seq::<char>::empty()
    &&& res.payload@ == Seq::<char>::empty()
    &&& res.memo_id is None
}

/// Whether `event` is the answer to the work that `state` waits for, and, where it
/// brings the upload limit, whether that limit can be counted in a `usize`.
pub open spec fn upload_event_fits(state: UploadState, event: UploadEvent) -> bool {
    match (state, event) {
        (UploadState::AwaitField { .. }, UploadEvent::FieldRead(_)) => true,
        (UploadState::AwaitSetting { .. }, UploadEvent::SettingFound(s)) => upload_limit(limit_value(s)) <= usize::MAX,
        (UploadState::AwaitCreated { .. }, UploadEvent::Created(_)) => true,
        _ => false,
    }
}

/// How an upload by the user `user_id` begins: by reading the first file of the request.
pub fn upload_start(user_id: i32) -> (r: (UploadState, UploadAction))
    ensures
        r.0 == (UploadState::AwaitField { user_id }),
        r.1 == UploadAction::ReadField,
{
    (UploadState::AwaitField { user_id }, UploadAction::ReadField)
}

/// The next step of an upload: from where it stands and what the last piece of outside
/// work brought back, where it goes and what it asks for.
///
/// - No file: the answer is `UploadFileNotFound`; nothing is looked up or stored.
/// - A file: the upload limit is looked up.
/// - A file not smaller than the limit: the answer is `FileSizeLimit` with the setting's
///   value; nothing is stored.
/// - A smaller file: it is stored, with the user as its creator.
/// - Once stored: the answer describes the stored resource.
pub fn upload_step(state: UploadState, event: UploadEvent) -> (r: (UploadState, UploadAction))
    requires
        upload_event_fits(state, event),
    ensures
        match (state, event) {
            (UploadState::AwaitField { user_id }, UploadEvent::FieldRead(None)) => {
                &&& r.0 is Done
                &&& r.1 matches UploadAction::Reply(Err(Error::UploadFileNotFound))
            },
            (UploadState::AwaitField { user_id }, UploadEvent::FieldRead(Some(field))) => {
                &&& r.0 == (UploadState::AwaitSetting { user_id, field })
                &&& r.1 == UploadAction::FindSetting(SystemSettingKey::MaxUploadSizeMiB)
            },
            (UploadState::AwaitSetting { user_id, field }, UploadEvent::SettingFound(s)) => {
                if upload_limit(limit_value(s)) > field.data.len() {
                    &&& r.0 == (UploadState::AwaitCreated { user_id })
                    &&& r.1 matches UploadAction::Create(res)
                    &&& new_resource(res, user_id, field)
                } else {
                    &&& r.0 is Done
                    &&& r.1 matches UploadAction::Reply(Err(Error::FileSizeLimit { size }))
                    &&& size@ == limit_value(s)
                }
            },
            (UploadState::AwaitCreated { user_id }, UploadEvent::Created(res)) => {
                &&& r.0 is Done
                &&& r.1 == UploadAction::Reply(Ok(created_response(res, user_id)))
            },
            _ => false,
        },
{
    match state {
        UploadState::AwaitField { user_id } => match event {
            UploadEvent::FieldRead(Some(field)) => (
                UploadState::AwaitSetting { user_id, field },
                UploadAction::FindSetting(SystemSettingKey::MaxUploadSizeMiB),
            ),
            UploadEvent::FieldRead(None) => (UploadState::Done, UploadAction::Reply(Err(Error::UploadFileNotFound))),
            _ => vstd::pervasive::unreached(),
        },
        UploadState::AwaitSetting { user_id, field } => match event {
            UploadEvent::SettingFound(found) => {
                let setting = match found {
                    Some(s) => s,
                    None => default_max_upload_size(),
                };
                assert(setting.value@ == limit_value(found)) by { reveal_strlit("32"); }
                match check_upload_size(&setting, field.data.len()) {
                    Ok(()) => {
                        let size = field.data.len();
                        let res = crate::model::resource::Resource {
                            id: 0,
                            uid: String::new(),
                            creator_id: user_id,
                            created_ts: 0,
                            updated_ts: 0,
                            filename: field.filename,
                            blob: field.data,
                            type_: field.type_,
                            size,
                            storage_type: ResourceStorageType::Unspecified,
                            reference: String::new(),
                            payload: String::new(),
                            memo_id: None,
                        };
                        (UploadState::AwaitCreated { user_id }, UploadAction::Create(res))
                    },
                    Err(e) => (UploadState::Done, UploadAction::Reply(Err(e))),
                }
            },
            _ => vstd::pervasive::unreached(),
        },
        UploadState::AwaitCreated { user_id } => match event {
            UploadEvent::Created(res) => {
                let resp = CreateResourceResponse::from_created(res, user_id);
                (UploadState::Done, UploadAction::Reply(Ok(resp)))
            },
            _ => vstd::pervasive::unreached(),
        },
        UploadState::Done => vstd::pervasive::unreached(),
    }
}

} // verus!
