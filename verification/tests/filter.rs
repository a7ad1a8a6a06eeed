use memos::api::memo::{replace_single_quotes, Error};
use memos::api::v1::gen::{Direction, ListMemosRequest, PageToken};
use memos::model::filter::FilterError;
use memos::model::memo::SearchMemosFilter;
use memos::pb::memos_api_v2::{RowStatus, Visibility};

#[test]
fn parse_filter() {
    let filter =
        r#"visibilities == ['PUBLIC'] && row_status == "NORMAL" && creator == "users/THELOSTSOUL" && order_by_pinned == true && display_time_before == 123 && tag_search == ["TODO"]"#
            .replace('\'', "\"");
    let filter = SearchMemosFilter::parse(&filter).ok().unwrap();
    assert_eq!(filter.row_status, Some(RowStatus::Active));
    assert_eq!(filter.visibilities, Some(vec![Visibility::Public]));
    assert_eq!(filter.creator, Some("users/THELOSTSOUL".to_string()));
    assert_eq!(filter.order_by_pinned, Some(true));
    assert_eq!(filter.display_time_before, Some(123_i64));
    assert_eq!(filter.tag_search, Some(vec!["TODO".to_string()]));
}

#[test]
fn filter_fields_left_out_stay_unset() {
    let filter = SearchMemosFilter::parse(r#"has_code == true && limit == 5"#).ok().unwrap();
    assert_eq!(filter.has_code, Some(true));
    assert_eq!(filter.limit, Some(5));
    assert_eq!(filter.creator, None);
    assert_eq!(filter.row_status, None);
    assert_eq!(filter.visibilities, None);
}

#[test]
fn filter_row_status_by_name() {
    let filter = SearchMemosFilter::parse(r#"row_status == "ARCHIVED""#).ok().unwrap();
    assert_eq!(filter.row_status, Some(RowStatus::Archived));
}

#[test]
fn filter_with_unknown_character_is_refused() {
    assert!(matches!(SearchMemosFilter::parse("creator == $"), Err(FilterError::InvalidSyntax)));
}

#[test]
fn filter_without_value_is_refused() {
    assert!(matches!(SearchMemosFilter::parse("creator =="), Err(FilterError::InvalidSyntax)));
}

#[test]
fn single_quotes_become_double() {
    assert_eq!(replace_single_quotes("a == ['x', \"y\"]"), "a == [\"x\", \"y\"]");
}

#[test]
fn list_request_builds_search() {
    let req = ListMemosRequest {
        page_size: 10,
        page_token: String::new(),
        filter: "creator == 'users/7' && tag_search == ['a'] && random == true".to_string(),
    };
    let find = req.to_find_memo(None).ok().unwrap();
    assert_eq!(find.creator_id, Some(7));
    assert_eq!(find.page_token, Some(PageToken { limit: 10, offset: 0 }));
    assert!(find.exclude_comments);
    assert!(find.order_by_updated_ts);
    assert!(find.random);
    assert_eq!(find.direction, Direction::Unspecified);
    assert_eq!(find.payload_find.unwrap().tags, Some(vec!["a".to_string()]));
}

#[test]
fn list_request_uses_decoded_page_token() {
    let req = ListMemosRequest { page_size: 10, page_token: "x".to_string(), filter: "random == false".to_string() };
    let find = req.to_find_memo(Some(Ok(PageToken { limit: 3, offset: 6 }))).ok().unwrap();
    assert_eq!(find.page_token, Some(PageToken { limit: 3, offset: 6 }));
    assert_eq!(find.creator_id, None);
    assert!(find.payload_find.is_none());
}

#[test]
fn list_request_errors() {
    let bad_filter = ListMemosRequest { page_size: 1, page_token: String::new(), filter: "creator ==".to_string() };
    assert!(matches!(bad_filter.to_find_memo(None), Err(Error::FilterDecode { .. })));
    let empty = ListMemosRequest { page_size: 1, page_token: String::new(), filter: String::new() };
    assert!(matches!(empty.to_find_memo(None), Err(Error::FilterDecode { .. })));
    let bad_user =
        ListMemosRequest { page_size: 1, page_token: String::new(), filter: "creator == 'memos/1'".to_string() };
    assert!(matches!(bad_user.to_find_memo(None), Err(Error::InvalidUsername { .. })));
    let bad_token =
        ListMemosRequest { page_size: 1, page_token: "x".to_string(), filter: "random == false".to_string() };
    match bad_token.to_find_memo(Some(Err("eof".to_string()))) {
        Err(Error::PageTokenDecode { source }) => assert_eq!(source, "eof"),
        _ => panic!("expected a page token error"),
    }
}

#[test]
fn comparison_order_does_not_matter() {
    let a = SearchMemosFilter::parse(r#"creator == "users/1" && row_status == "NORMAL" && tag_search == ["x"] && limit == 3"#)
        .ok()
        .unwrap();
    let b = SearchMemosFilter::parse(r#"limit == 3 && tag_search == ["x"] && row_status == "NORMAL" && creator == "users/1""#)
        .ok()
        .unwrap();
    assert_eq!(a.creator, b.creator);
    assert_eq!(a.row_status, b.row_status);
    assert_eq!(a.tag_search, b.tag_search);
    assert_eq!(a.limit, b.limit);
    assert_eq!(a.creator.as_deref(), Some("users/1"));
    assert_eq!(a.row_status, Some(RowStatus::Active));
    assert_eq!(a.limit, Some(3));
    assert!(a.uid.is_none() && b.uid.is_none());
}

#[test]
fn first_comparison_of_a_field_decides() {
    let f = SearchMemosFilter::parse(r#"uid == "a" && unknown == 1 && uid == "b""#).ok().unwrap();
    assert_eq!(f.uid.as_deref(), Some("a"));
    assert!(f.creator.is_none());
}

#[test]
fn any_comparison_operator_sets_the_field() {
    let f = SearchMemosFilter::parse(r#"row_status != "NORMAL" && limit <= 5 && display_time_after > 10"#).ok().unwrap();
    assert_eq!(f.row_status, Some(RowStatus::Active));
    assert_eq!(f.limit, Some(5));
    assert_eq!(f.display_time_after, Some(10));
    let f = SearchMemosFilter::parse(r#"limit<3"#).ok().unwrap();
    assert_eq!(f.limit, Some(3));
}

#[test]
fn any_rust_expression_is_read() {
    let f = SearchMemosFilter::parse("x == 1.5 && limit == 2").ok().unwrap();
    assert_eq!(f.limit, Some(2));
    let f = SearchMemosFilter::parse("limit == 123i64 && uid == \"a\\\"b\"").ok().unwrap();
    assert_eq!(f.limit, Some(123));
    assert_eq!(f.uid.as_deref(), Some("a\"b"));
    let f = SearchMemosFilter::parse("limit == -1").ok().unwrap();
    assert_eq!(f.limit, None);
    let f = SearchMemosFilter::parse("creator").ok().unwrap();
    assert!(f.creator.is_none());
    let f = SearchMemosFilter::parse("uid == \"a\" || limit == 2").ok().unwrap();
    assert!(f.uid.is_none() && f.limit.is_none());
    let f = SearchMemosFilter::parse("(uid == \"a\") && limit == 0x10").ok().unwrap();
    assert!(f.uid.is_none());
    assert_eq!(f.limit, Some(16));
}

#[test]
fn list_request_reads_what_syn_reads() {
    let req = ListMemosRequest {
        page_size: 1,
        page_token: String::new(),
        filter: "x == 1.5 && creator == 'memos/1'".to_string(),
    };
    assert!(matches!(req.to_find_memo(None), Err(Error::InvalidUsername { .. })));
    let req = ListMemosRequest { page_size: 1, page_token: String::new(), filter: "x == 1.5".to_string() };
    assert!(req.to_find_memo(None).is_ok());
}
