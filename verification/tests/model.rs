use memos::api::v1::gen::PageToken;
use memos::model::gen::{MemoPayload, Property, ResourceStorageType, UserSettingKey};
use memos::model::memo::FindMemo;
use memos::model::pager::Paginator;
use memos::model::{bool_from_i8, bool_to_i8};
use memos::pb::memos_api_v2::Visibility;

fn tags(p: &MemoPayload) -> Vec<String> {
    p.property.as_ref().unwrap().tags.clone()
}

#[test]
fn payload_constructors() {
    assert_eq!(tags(&MemoPayload::tag("a".to_string())), vec!["a".to_string()]);
    assert!(MemoPayload::tags(vec![]).property.is_none());
    assert!(MemoPayload::link().property.unwrap().has_link);
    assert!(MemoPayload::code().property.unwrap().has_code);
    let task = MemoPayload::task().property.unwrap();
    assert!(task.has_task_list && !task.has_incomplete_tasks);
    let open = MemoPayload::incomplete_task().property.unwrap();
    assert!(open.has_task_list && open.has_incomplete_tasks);
}

#[test]
fn payload_merge_joins_tags_and_flags() {
    let mut p = MemoPayload::tags(vec!["a".to_string(), "b".to_string()]);
    p.merge(MemoPayload::link());
    p.merge(MemoPayload::tag("c".to_string()));
    let prop: Property = p.property.unwrap();
    assert_eq!(prop.tags, vec!["a".to_string(), "b".to_string(), "c".to_string()]);
    assert!(prop.has_link);
    assert!(!prop.has_code);
}

#[test]
fn payload_merge_with_empty_keeps_payload() {
    let mut p = MemoPayload::default();
    p.merge(MemoPayload::code());
    assert!(p.property.as_ref().unwrap().has_code);
    p.merge(MemoPayload::default());
    assert!(p.property.unwrap().has_code);
}

#[test]
fn completed_without_user_finds_public_memos() {
    let mut f = FindMemo { created_ts_after: Some(5), ..Default::default() };
    f.completed(None, true);
    assert_eq!(f.visibility_list, vec![Visibility::Public]);
    assert!(f.order_by_updated_ts);
    assert_eq!(f.updated_ts_after, Some(5));
    assert_eq!(f.created_ts_after, None);
}

#[test]
fn completed_for_user_searches_own_memos() {
    let mut f = FindMemo { updated_ts_before: Some(9), ..Default::default() };
    f.completed(Some(4), false);
    assert_eq!(f.creator_id, Some(4));
    assert!(f.visibility_list.is_empty());
    assert!(!f.order_by_updated_ts);
    assert_eq!(f.created_ts_before, Some(9));
    assert_eq!(f.updated_ts_before, None);
}

#[test]
fn completed_for_other_creator_hides_private_memos() {
    let mut f = FindMemo { creator_id: Some(2), id: Some(1), ..Default::default() };
    f.completed(Some(4), true);
    assert_eq!(f.visibility_list, vec![Visibility::Public, Visibility::Protected]);
    assert!(!f.order_by_updated_ts);
}

#[test]
fn completed_twice_is_completed_once() {
    let mut a = FindMemo { created_ts_after: Some(5), ..Default::default() };
    a.completed(Some(1), true);
    let mut b = a.clone();
    b.completed(Some(1), true);
    assert_eq!(a.creator_id, b.creator_id);
    assert_eq!(a.updated_ts_after, b.updated_ts_after);
    assert_eq!(a.created_ts_after, b.created_ts_after);
    assert_eq!(a.visibility_list, b.visibility_list);
}

#[test]
fn pager_fetches_one_more() {
    let t = PageToken { limit: 2, offset: 4 };
    assert_eq!(t.limit(), 3);
    assert_eq!(t.offset(), 4);
}

#[test]
fn pager_next_page() {
    let t = PageToken { limit: 2, offset: 4 };
    let mut data = vec![1, 2, 3];
    assert_eq!(t.next_page(&mut data), Some(PageToken { limit: 2, offset: 6 }));
    assert_eq!(data, vec![1, 2]);
    let mut last = vec![1, 2];
    assert_eq!(t.next_page(&mut last), None);
    assert_eq!(last, vec![1, 2]);
}

#[test]
fn flags_are_stored_as_numbers() {
    assert_eq!(bool_to_i8(true), 1);
    assert_eq!(bool_to_i8(false), 0);
    assert!(bool_from_i8(1));
    assert!(!bool_from_i8(2));
    assert!(bool_from_i8(bool_to_i8(true)));
    assert!(!bool_from_i8(bool_to_i8(false)));
}

#[test]
fn stored_names_read_back_or_default() {
    assert_eq!(ResourceStorageType::from_name_or_default("S3"), ResourceStorageType::S3);
    assert_eq!(ResourceStorageType::from_name_or_default("s3"), ResourceStorageType::Unspecified);
    assert_eq!(UserSettingKey::from_name_or_default("LOCALE"), UserSettingKey::Locale);
    assert_eq!(UserSettingKey::from_name_or_default(""), UserSettingKey::Unspecified);
}
