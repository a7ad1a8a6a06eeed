use memos::api::v1::gen::{Direction, PageToken};
use memos::cel::{parse_cel, CelExpr};
use memos::dao::turso::memo::delete_memo_criteria;
use memos::dao::turso::memo::find::{convert_ecl_to_sql, convert_expr_to_sql, time_param};
use memos::dao::turso::SqlValue;
use memos::model::gen::MemoPayload;
use memos::model::memo::{CreateMemo, FindMemo, FindMemoPayload, UpdateMemo};
use memos::pb::memos_api_v2::{RowStatus, Visibility};

fn parsed(filter: &str) -> Option<CelExpr> {
    if filter.is_empty() {
        None
    } else {
        Some(parse_cel(filter).unwrap())
    }
}

fn text(s: &str) -> SqlValue {
    SqlValue::Text(s.to_string())
}

#[test]
fn test() {
    let (sql, params) = convert_ecl_to_sql(&parsed(
        r#"!(tag in ["tag1", "tag2"]) && (content.contains('hello') || pinned) && create_time == "2006-01-02T15:04:05+07:00""#,
    ));
    assert_eq!(
        r#"((NOT ((JSON_EACH.value IN (?, ?))) AND (content LIKE ? OR pinned IS TRUE)) AND (create_time = ?))"#,
        sql
    );
    assert_eq!(
        vec![text("tag1"), text("tag2"), text("%hello%"), SqlValue::Integer(1136189045)],
        params
    );
}

#[test]
fn empty_filter_gives_no_sql() {
    let (sql, params) = convert_ecl_to_sql(&None);
    assert_eq!("", sql);
    assert!(params.is_empty());
    let (sql, params) = convert_ecl_to_sql(&parsed("true"));
    assert_eq!("", sql);
    assert!(params.is_empty());
}

#[test]
fn time_that_is_no_date_is_bound_as_text() {
    let (sql, params) = convert_ecl_to_sql(&parsed(r#"update_time > "yesterday""#));
    assert_eq!("(update_time > ?)", sql);
    assert_eq!(vec![text("yesterday")], params);
}

#[test]
fn time_param_prefers_the_timestamp() {
    assert_eq!(SqlValue::Integer(7), time_param("x".to_string(), Some(7)));
    assert_eq!(text("x"), time_param("x".to_string(), None));
}

#[test]
fn arithmetic_and_literals() {
    let (sql, params) = convert_expr_to_sql(&parsed("1 + 2 <= -x").unwrap());
    assert!(sql.starts_with("("), "{sql}");
    assert_eq!(2, params.len());
    assert_eq!(SqlValue::Integer(1), params[0]);
    assert_eq!(SqlValue::Integer(2), params[1]);
}

#[test]
fn create_memo_criteria_match_builder() {
    let memo = CreateMemo {
        creator_id: 3,
        uid: "u1".to_string(),
        content: "hello".to_string(),
        visibility: Visibility::Protected,
        payload: MemoPayload::default(),
    };
    let (sql, params) = memo.to_criteria("{}".to_string());
    let expected = sql_query_builder::Insert::new()
        .insert_into("memo (creator_id, uid, content, visibility, payload)")
        .values("(?, ?, ?, ?, ?)")
        .returning("id, uid, creator_id, created_ts, updated_ts, row_status, content, visibility, payload")
        .as_string();
    assert_eq!(expected, sql);
    assert_eq!(
        vec![SqlValue::Integer(3), text("u1"), text("hello"), text("PROTECTED"), text("{}")],
        params
    );
    assert_eq!(sql.matches('?').count(), params.len());
}

#[test]
fn update_memo_criteria_match_builder() {
    let update = UpdateMemo {
        id: 9,
        creator_id: 1,
        content: Some("new".to_string()),
        visibility: Some(Visibility::Private),
        row_status: Some(RowStatus::Archived),
        pinned: Some(true),
        payload: None,
    };
    let (sql, params) = update.to_criteria(None);
    let expected = sql_query_builder::Update::new()
        .update("memo")
        .where_and("id = ?")
        .set("visibility = ?")
        .set("row_status = ?")
        .set("content = ?")
        .set("pinned = ?")
        .as_string();
    assert_eq!(expected, sql);
    assert_eq!(
        vec![SqlValue::Integer(9), text("PRIVATE"), text("ARCHIVED"), text("new"), SqlValue::Integer(1)],
        params
    );
    assert_eq!(sql.matches('?').count(), params.len());
}

#[test]
fn update_that_sets_nothing_is_empty() {
    let update = UpdateMemo { id: 9, ..Default::default() };
    let (sql, params) = update.to_criteria(None);
    assert_eq!("", sql);
    assert!(params.is_empty());
}

#[test]
fn delete_memo_statement() {
    let (sql, params) = delete_memo_criteria(4);
    assert_eq!("delete from memo where id = ?", sql);
    assert_eq!(vec![SqlValue::Integer(4)], params);
}

#[test]
fn find_memo_criteria_match_builder() {
    let find = FindMemo {
        creator_id: Some(1),
        row_status: Some(RowStatus::Active),
        content_search: vec!["abc".to_string()],
        visibility_list: vec![Visibility::Public, Visibility::Protected],
        payload_find: Some(FindMemoPayload {
            tags: Some(vec!["t".to_string()]),
            has_code: true,
            ..Default::default()
        }),
        order_by_pinned: true,
        page_token: Some(PageToken { limit: 10, offset: 20 }),
        direction: Direction::Desc,
        filter: "pinned".to_string(),
        ..Default::default()
    };
    let (sql, params) = find.to_criteria().ok().unwrap();
    let expected = sql_query_builder::Select::new()
        .from("memo")
        .left_join("JSON_EACH(memo.payload, '$.tags')")
        .select("memo.id AS id")
        .select("memo.uid AS uid")
        .select("memo.creator_id AS creator_id")
        .select("memo.created_ts AS created_ts")
        .select("memo.updated_ts AS updated_ts")
        .select("memo.row_status AS state")
        .select("memo.visibility AS visibility")
        .select("memo.pinned AS pinned")
        .select("memo.payload AS payload")
        .select("memo.content AS content")
        .where_and("memo.creator_id = ?")
        .where_and("memo.row_status = ?")
        .where_and("memo.content LIKE ?")
        .where_and("memo.visibility in (?, ?)")
        .where_and("JSON_EACH.value = ?")
        .where_and("JSON_EXTRACT(memo.payload, '$.property.has_code') IS TRUE")
        .where_and("pinned IS TRUE")
        .order_by("pinned DESC")
        .order_by("created_ts DESC")
        .limit("11")
        .offset("20")
        .as_string();
    assert_eq!(expected, sql);
    assert_eq!(
        vec![
            SqlValue::Integer(1),
            text("ACTIVE"),
            text("%abc%"),
            text("PUBLIC"),
            text("PROTECTED"),
            text("t"),
        ],
        params
    );
    assert_eq!(sql.matches('?').count(), params.len());
}

#[test]
fn each_placeholder_gets_one_value() {
    for filter in [
        r#"tag in ["a", "b"] && content.contains("x")"#,
        r#"!(has_code || visibility == "PUBLIC") && create_time >= "2020-01-01T00:00:00Z""#,
        "1 + 2 * 3 != 7 && [1, 2, null] == [x]",
    ] {
        let (sql, params) = convert_ecl_to_sql(&parsed(filter));
        assert_eq!(sql.matches('?').count(), params.len(), "{filter}: {sql}");
    }
}

#[test]
fn other_function_calls_repeat_their_arguments() {
    let (sql, params) = convert_ecl_to_sql(&parsed("size(1)"));
    assert_eq!("?(?)", sql);
    assert_eq!(vec![SqlValue::Integer(1)], params);
}
