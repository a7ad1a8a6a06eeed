use vstd::prelude::*;

pub mod memos_api_v1;
pub mod memos_api_v2;

use memos_api_v2::{
    lemma_role_names, lemma_row_status_names, role_from_name, role_name, role_number, role_of_number,
    row_status_from_name, row_status_name, row_status_number, row_status_of_number, Role, RowStatus,
};

verus! {

/// A point in time: seconds since the Unix epoch and a fraction of a second.
#[derive(Clone, Copy, Debug, PartialEq, Eq, Default, Structural)]
pub struct Timestamp {
    pub seconds: i64,
    pub nanos: i32,
}

/// The fields that an update request names, each as a path such as `content`.
#[derive(Clone, Debug, Default)]
pub struct FieldMask {
    pub paths: Vec<String>,
}

/// The seconds that a time is written as: 0 when there is none.
pub open spec fn seconds_of(date: Option<Timestamp>) -> i64 {
    match date {
        Some(d) => d.seconds,
        None => 0,
    }
}

/// The seconds that a time is written as in JSON: 0 when there is none.
pub fn timestamp_seconds(date: &Option<Timestamp>) -> (r: i64)
    ensures
        r == seconds_of(*date),
{
    match date {
        Some(d) => d.seconds,
        None => 0,
    }
}

/// The time that `seconds`, read from JSON, stand for.
pub fn timestamp_from_seconds(seconds: i64) -> (r: Option<Timestamp>)
    ensures
        r == Some(Timestamp { seconds, nanos: 0 }),
{
    Some(Timestamp { seconds, nanos: 0 })
}

/// Writing a time read from JSON gives back the seconds that were read.
pub proof fn lemma_seconds_roundtrip(seconds: i64)
    ensures
        seconds_of(Some(Timestamp { seconds, nanos: 0 })) == seconds,
{
}

/// The status that the number `status` stands for; an unknown number stands for the
/// unspecified status.
pub open spec fn row_status_or_unspecified(status: i32) -> RowStatus {
    match row_status_of_number(status) {
        Some(v) => v,
        None => RowStatus::Unspecified,
    }
}

/// The status that the name `s` names; an unknown name names the unspecified status.
pub open spec fn row_status_named_or_unspecified(s: Seq<char>) -> RowStatus {
    match row_status_from_name(s) {
        Some(v) => v,
        None => RowStatus::Unspecified,
    }
}

/// The name that a status number is written as in JSON.
pub fn row_status_text(status: i32) -> (r: &'static str)
    ensures
        r@ == row_status_name(row_status_or_unspecified(status)),
{
    let v = match RowStatus::from_i32(status) {
        Some(v) => v,
        None => RowStatus::Unspecified,
    };
    v.as_str_name()
}

/// The status number that a name read from JSON stands for.
pub fn row_status_code(text: &str) -> (r: i32)
    ensures
        r == row_status_number(row_status_named_or_unspecified(text@)),
{
    let v = match RowStatus::from_str_name(text) {
        Some(v) => v,
        None => RowStatus::Unspecified,
    };
    v.as_i32()
}

/// Reading back the name written for a known status number gives that number.
pub proof fn lemma_row_status_text_roundtrip(v: RowStatus)
    ensures
        row_status_number(row_status_named_or_unspecified(row_status_name(row_status_or_unspecified(row_status_number(v)))))
            == row_status_number(v),
{
    assert(row_status_of_number(row_status_number(v)) == Some(v));
    lemma_row_status_names(v, row_status_name(v));
}

/// The role that the number `role` stands for; an unknown number stands for the
/// unspecified role.
pub open spec fn role_or_unspecified(role: i32) -> Role {
    match role_of_number(role) {
        Some(v) => v,
        None => Role::Unspecified,
    }
}

/// The role that the name `s` names; an unknown name names the unspecified role.
pub open spec fn role_named_or_unspecified(s: Seq<char>) -> Role {
    match role_from_name(s) {
        Some(v) => v,
        None => Role::Unspecified,
    }
}

/// The name that a role number is written as in JSON.
pub fn role_text(role: i32) -> (r: &'static str)
    ensures
        r@ == role_name(role_or_unspecified(role)),
{
    let v = match Role::from_i32(role) {
        Some(v) => v,
        None => Role::Unspecified,
    };
    v.as_str_name()
}

/// The role number that a name read from JSON stands for.
pub fn role_code(text: &str) -> (r: i32)
    ensures
        r == role_number(role_named_or_unspecified(text@)),
{
    let v = match Role::from_str_name(text) {
        Some(v) => v,
        None => Role::Unspecified,
    };
    v.as_i32()
}

/// Reading back the name written for a known role number gives that number.
pub proof fn lemma_role_text_roundtrip(v: Role)
    ensures
        role_number(role_named_or_unspecified(role_name(role_or_unspecified(role_number(v))))) == role_number(v),
{
    assert(role_of_number(role_number(v)) == Some(v));
    lemma_role_names(v, role_name(v));
}

} // verus!
