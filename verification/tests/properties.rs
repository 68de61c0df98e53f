use query::casing::CaseMode;
use query::sort::Sort;
use query::sql::{Database, QueryBuilder};
use query::{Filter, FilterOp, ParseError, UrlQuery};

fn filter(field: &str, op: FilterOp, value: &str) -> Filter {
    Filter { field: field.to_owned(), op, value: value.to_owned() }
}

fn empty_query() -> UrlQuery {
    UrlQuery { filters: vec![], group: None, sort: None, limit: None, offset: None }
}

#[test]
fn test_end_to_end_postgres() {
    let parsed = UrlQuery {
        filters: vec![filter("userId", FilterOp::Eq, "123"), filter("orderId", FilterOp::Eq, "1")],
        group: None,
        sort: Some(Sort::new("price-desc").unwrap()),
        limit: Some("10".to_owned()),
        offset: Some("0".to_owned()),
    };

    let (sql, args) = QueryBuilder::new("orders", vec!["id", "status"], parsed)
        .convert_case(CaseMode::Snake)
        .build();

    assert_eq!(
        sql,
        "SELECT id, status FROM orders WHERE user_id = $1 AND order_id = $2 \
         ORDER BY price DESC LIMIT 10 OFFSET 0"
    );
    assert_eq!(
        args,
        vec![
            ("userId".to_owned(), "123".to_owned()),
            ("orderId".to_owned(), "1".to_owned()),
        ]
    );
}

#[test]
fn test_end_to_end_mysql_placeholders() {
    let parsed = UrlQuery {
        filters: vec![filter("userId", FilterOp::Eq, "123"), filter("orderId", FilterOp::Eq, "1")],
        group: None,
        sort: Some(Sort::new("price-desc").unwrap()),
        limit: Some("10".to_owned()),
        offset: Some("0".to_owned()),
    };

    let (sql, _) = QueryBuilder::new("orders", vec!["id", "status"], parsed)
        .convert_case(CaseMode::Snake)
        .set_database(Database::MySQL)
        .build();

    assert_eq!(
        sql,
        "SELECT id, status FROM orders WHERE user_id = ? AND order_id = ? \
         ORDER BY price DESC LIMIT 10 OFFSET 0"
    );
}

#[test]
fn test_shift_bind_moves_first_placeholder() {
    let parsed = UrlQuery {
        filters: vec![filter("id", FilterOp::Eq, "7")],
        group: None,
        sort: None,
        limit: None,
        offset: None,
    };

    let (sql, args) = QueryBuilder::from_str("SELECT * FROM t", parsed).shift_bind(1).build();

    assert_eq!(sql, "SELECT * FROM t WHERE id = $2");
    assert_eq!(args.len(), 1);
}

#[test]
fn test_multi_digit_placeholder() {
    let parsed = UrlQuery {
        filters: vec![filter("id", FilterOp::Eq, "7"), filter("status", FilterOp::Eq, "open")],
        group: None,
        sort: None,
        limit: None,
        offset: None,
    };

    let (sql, _) = QueryBuilder::from_str("SELECT * FROM t", parsed).shift_bind(98).build();
    assert_eq!(sql, "SELECT * FROM t WHERE id = $99 AND status = $100");
}

#[test]
fn test_offset_without_limit_is_omitted() {
    let mut parsed = empty_query();
    parsed.offset = Some("5".to_owned());

    let (sql, _) = QueryBuilder::from_str("SELECT * FROM t", parsed).build();
    assert_eq!(sql, "SELECT * FROM t");
}

#[test]
fn test_offset_after_invalid_limit_is_omitted() {
    let mut parsed = empty_query();
    parsed.limit = Some("ten".to_owned());
    parsed.offset = Some("5".to_owned());

    let (sql, _) = QueryBuilder::from_str("SELECT * FROM t", parsed).build();
    assert_eq!(sql, "SELECT * FROM t");
}

#[test]
fn test_invalid_offset_keeps_limit() {
    let mut parsed = empty_query();
    parsed.limit = Some("10".to_owned());
    parsed.offset = Some("x".to_owned());

    let (sql, _) = QueryBuilder::from_str("SELECT * FROM t", parsed).build();
    assert_eq!(sql, "SELECT * FROM t LIMIT 10");
}

#[test]
fn test_check_limit_and_offset_errors() {
    let q = empty_query();
    assert_eq!(q.check_limit().unwrap_err(), ParseError::InvalidLimit);
    assert_eq!(q.check_offset().unwrap_err(), ParseError::InvalidOffset);

    let mut q = empty_query();
    q.limit = Some("".to_owned());
    q.offset = Some("1a".to_owned());
    assert_eq!(q.check_limit().unwrap_err(), ParseError::InvalidLimit);
    assert_eq!(q.check_offset().unwrap_err(), ParseError::InvalidOffset);

    let mut q = empty_query();
    q.limit = Some("10".to_owned());
    q.offset = Some("0".to_owned());
    assert_eq!(q.check_limit().unwrap(), "10");
    assert_eq!(q.check_offset().unwrap(), "0");
}

#[test]
fn test_args_one_per_filter_whatever_else_holds() {
    let parsed = UrlQuery {
        filters: vec![
            filter("a", FilterOp::Eq, "1"),
            filter("b", FilterOp::Ne, "2"),
            filter("c", FilterOp::Lt, "3"),
        ],
        group: Some("a".to_owned()),
        sort: Some(Sort::new("b-asc").unwrap()),
        limit: Some("bad".to_owned()),
        offset: None,
    };

    let (_, args) = QueryBuilder::from_str("SELECT * FROM t", parsed).build();
    assert_eq!(args.len(), 3);
}

#[test]
fn test_all_operators_render() {
    let parsed = UrlQuery {
        filters: vec![
            filter("a", FilterOp::Eq, "1"),
            filter("b", FilterOp::Ne, "2"),
            filter("c", FilterOp::Gt, "3"),
            filter("d", FilterOp::Ge, "4"),
            filter("e", FilterOp::Lt, "5"),
            filter("f", FilterOp::Le, "6"),
        ],
        group: None,
        sort: None,
        limit: None,
        offset: None,
    };

    let (sql, args) = QueryBuilder::from_str("SELECT * FROM t", parsed).build();
    assert_eq!(
        sql,
        "SELECT * FROM t WHERE a = $1 AND b != $2 AND c > $3 AND d >= $4 AND e < $5 AND f <= $6"
    );
    assert_eq!(args.len(), 6);
}

#[test]
fn test_group_defaults_to_snake_case() {
    let mut parsed = empty_query();
    parsed.group = Some("createdAt".to_owned());

    let (sql, _) = QueryBuilder::from_str("SELECT * FROM t", parsed).build();
    assert_eq!(sql, "SELECT * FROM t GROUP BY created_at");
}

#[test]
fn test_group_with_camel_case_mode() {
    let mut parsed = empty_query();
    parsed.group = Some("created_at".to_owned());

    let (sql, _) = QueryBuilder::from_str("SELECT * FROM t", parsed)
        .convert_case(CaseMode::Camel)
        .build();
    assert_eq!(sql, "SELECT * FROM t GROUP BY createdAt");
}

#[test]
fn test_empty_column_list_is_degenerate_but_accepted() {
    let (sql, _) = QueryBuilder::new("orders", vec![], empty_query()).build();
    assert_eq!(sql, "SELECT  FROM orders");
}

#[test]
fn test_build_twice_is_identical() {
    let make = || UrlQuery {
        filters: vec![filter("userId", FilterOp::Eq, "123"), filter("price", FilterOp::Ge, "9")],
        group: Some("userId".to_owned()),
        sort: Some(Sort::new("price-asc").unwrap()),
        limit: Some("10".to_owned()),
        offset: Some("20".to_owned()),
    };

    let build = |q: UrlQuery| {
        QueryBuilder::new("orders", vec!["id"], q)
            .map_columns(vec![("userId".to_owned(), "orders".to_owned())])
            .convert_case(CaseMode::Snake)
            .build()
    };

    let (sql_a, args_a) = build(make());
    let (sql_b, args_b) = build(make());
    assert_eq!(sql_a, sql_b);
    assert_eq!(args_a, args_b);
}
