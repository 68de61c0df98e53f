use query::casing::CaseMode;
use query::sort::Sort;
use query::sql::{Database, QueryBuilder};
use query::{Filter, FilterOp, UrlQuery};

fn filter(field: &str, op: FilterOp, value: &str) -> Filter {
    Filter { field: field.to_owned(), op, value: value.to_owned() }
}

/// The model for `userId=123&userName=bob&filter[]=orderId-eq-1&
/// filter[]=price-ge-200&sort=price-desc&limit=10&offset=0`.
fn orders_query() -> UrlQuery {
    UrlQuery {
        filters: vec![
            filter("userId", FilterOp::Eq, "123"),
            filter("userName", FilterOp::Eq, "bob"),
            filter("orderId", FilterOp::Eq, "1"),
            filter("price", FilterOp::Ge, "200"),
        ],
        group: None,
        sort: Some(Sort::new("price-desc").unwrap()),
        limit: Some("10".to_owned()),
        offset: Some("0".to_owned()),
    }
}

#[test]
fn test_query_builder_from_str() {
    let parsed = orders_query();

    let (sql, args) = QueryBuilder::from_str("SELECT * FROM orders", parsed)
        .convert_case(CaseMode::Snake)
        .build();

    let expected = "SELECT * FROM orders \
        WHERE user_id = $1 AND user_name = $2 \
        AND order_id = $3 AND price >= $4 \
        ORDER BY price DESC \
        LIMIT 10 \
        OFFSET 0";

    assert_eq!(sql, expected);
    assert_eq!(args.len(), 4);
}

#[test]
fn test_query_builder_new() {
    let parsed = orders_query();

    let (sql, args) = QueryBuilder::new("orders", vec!["id", "status"], parsed)
        .convert_case(CaseMode::Snake)
        .build();

    let expected = "SELECT id, status FROM orders \
        WHERE user_id = $1 AND user_name = $2 \
        AND order_id = $3 AND price >= $4 \
        ORDER BY price DESC \
        LIMIT 10 \
        OFFSET 0";

    assert_eq!(sql, expected);
    assert_eq!(args.len(), 4);
}

#[test]
fn test_query_builder_new_append_joins() {
    let parsed = orders_query();

    let (sql, args) = QueryBuilder::new("orders", vec!["id", "status"], parsed)
        .append("JOIN users ON users.id = order.user_id")
        .append("JOIN inventory ON inventory.id = order.inventory_id")
        .convert_case(CaseMode::Snake)
        .build();

    let expected = "SELECT id, status FROM orders \
        JOIN users ON users.id = order.user_id \
        JOIN inventory ON inventory.id = order.inventory_id \
        WHERE user_id = $1 AND user_name = $2 \
        AND order_id = $3 AND price >= $4 \
        ORDER BY price DESC \
        LIMIT 10 \
        OFFSET 0";

    assert_eq!(sql, expected);
    assert_eq!(args.len(), 4);
}

#[test]
fn test_query_builder_new_map_columns() {
    // The model for `id=1&group=id&sort=createdAt-desc`.
    let parsed = UrlQuery {
        filters: vec![filter("id", FilterOp::Eq, "1")],
        group: Some("id".to_owned()),
        sort: Some(Sort::new("createdAt-desc").unwrap()),
        limit: None,
        offset: None,
    };

    let (sql, args) = QueryBuilder::from_str(
        "SELECT orders.id, user_id, status, address_id, orders.created_at FROM orders",
        parsed,
    )
    .append("JOIN order_items ON orders.id = order_items.order_id")
    .append("JOIN inventory ON order_items.inventory_id = inventory.id")
    .map_columns(vec![
        ("id".to_owned(), "orders".to_owned()),
        ("createdAt".to_owned(), "orders".to_owned()),
    ])
    .convert_case(CaseMode::Snake)
    .build();

    let expected = "SELECT orders.id, user_id, status, address_id, orders.created_at FROM orders \
         JOIN order_items ON orders.id = order_items.order_id \
         JOIN inventory ON order_items.inventory_id = inventory.id \
         WHERE orders.id = $1 GROUP BY orders.id ORDER BY orders.created_at DESC";

    assert_eq!(sql, expected);
    assert_eq!(args.len(), 1);
}

#[test]
fn test_append_where() {
    // The model for `filter[]=userId-eq-1&filter[]=id-eq-2`.
    let parsed = UrlQuery {
        filters: vec![filter("userId", FilterOp::Eq, "1"), filter("id", FilterOp::Eq, "2")],
        group: None,
        sort: None,
        limit: None,
        offset: None,
    };

    let mut builder = QueryBuilder::from_str("", parsed);

    let mut args = builder.append_where().into_iter();

    let user_id = args.next().unwrap().1;
    assert_eq!(user_id, "1");

    let id = args.next().unwrap().1;
    assert_eq!(id, "2");
}

#[test]
fn test_shift_bind() {
    let parsed = UrlQuery {
        filters: vec![filter("userId", FilterOp::Eq, "1"), filter("id", FilterOp::Eq, "2")],
        group: None,
        sort: None,
        limit: None,
        offset: None,
    };

    let (sql, args) = QueryBuilder::from_str(
        "SELECT id, (SELECT postcode FROM address WHERE id = $1) FROM orders",
        parsed,
    )
    .shift_bind(1)
    .convert_case(CaseMode::Snake)
    .build();

    let expected = "SELECT id, (SELECT postcode FROM address WHERE id = $1) FROM orders WHERE user_id = $2 AND id = $3";

    assert_eq!(sql, expected);
    assert_eq!(args.len(), 2);
}

#[test]
fn test_query_builder_set_database_mysql() {
    let parsed = orders_query();

    let (sql, args) = QueryBuilder::new("orders", vec!["id", "status"], parsed)
        .convert_case(CaseMode::Snake)
        .set_database(Database::MySQL)
        .build();

    let expected = "SELECT id, status FROM orders \
        WHERE user_id = ? AND user_name = ? \
        AND order_id = ? AND price >= ? \
        ORDER BY price DESC \
        LIMIT 10 \
        OFFSET 0";

    assert_eq!(sql, expected);
    assert_eq!(args.len(), 4);
}
