use aoi::prelude::{
    count_statement, delete_statement, insert_sql, non_pk_columns, primary_key_columns,
    select_all_statement,
    select_one_statement, update_statement, upsert_sql, Column, SqlValue, Sqlite3Type, UpdateSet,
    WhereClause,
};

fn user_columns() -> Vec<Column> {
    vec![
        Column::new("id", Sqlite3Type::Integer).primary_key(),
        Column::new("username", Sqlite3Type::Varchar(64)).not_null().unique(),
        Column::new("email", Sqlite3Type::Text).not_null().unique(),
        Column::new("age", Sqlite3Type::Integer).not_null(),
    ]
}

#[test]
fn insert_binds_non_primary_key_columns() {
    let cols = non_pk_columns(user_columns());
    assert_eq!(
        insert_sql("users", &cols),
        "INSERT INTO users (username, email, age) VALUES (?, ?, ?)"
    );
}

#[test]
fn upsert_binds_the_primary_key_first() {
    let keys = primary_key_columns(user_columns());
    let cols = non_pk_columns(user_columns());
    assert_eq!(
        upsert_sql("users", &keys, &cols),
        "INSERT OR REPLACE INTO users (id, username, email, age) VALUES (?, ?, ?, ?)"
    );
}

#[test]
fn upsert_with_a_composite_key() {
    let cols = vec![
        Column::new("a", Sqlite3Type::Integer).primary_key(),
        Column::new("x", Sqlite3Type::Text),
        Column::new("b", Sqlite3Type::Integer).primary_key(),
    ];
    let keys = primary_key_columns(cols.clone());
    let rest = non_pk_columns(cols);
    assert_eq!(
        upsert_sql("t", &keys, &rest),
        "INSERT OR REPLACE INTO t (a, b, x) VALUES (?, ?, ?)"
    );
}

#[test]
fn insert_with_no_columns() {
    assert_eq!(insert_sql("t", &[]), "INSERT INTO t () VALUES ()");
}

#[test]
fn where_clause_keeps_expr_and_params() {
    let w = WhereClause::new("age > ? AND active = ?", vec![SqlValue::Int(18), SqlValue::Int(1)]);
    assert_eq!(w.expr, "age > ? AND active = ?");
    assert_eq!(w.params, vec![SqlValue::Int(18), SqlValue::Int(1)]);
}

#[test]
fn select_all_without_and_with_filter() {
    let s = select_all_statement("users", None);
    assert_eq!(s.sql, "SELECT * FROM users");
    assert!(s.params.is_empty());
    let s = select_all_statement(
        "users",
        Some(WhereClause::new("active = ?", vec![SqlValue::Int(1)])),
    );
    assert_eq!(s.sql, "SELECT * FROM users WHERE active = ?");
    assert_eq!(s.params, vec![SqlValue::Int(1)]);
}

#[test]
fn select_one_limits_to_one_row() {
    let s = select_one_statement("users", WhereClause::new("id = ?", vec![SqlValue::Int(7)]));
    assert_eq!(s.sql, "SELECT * FROM users WHERE id = ? LIMIT 1");
    assert_eq!(s.params, vec![SqlValue::Int(7)]);
}

#[test]
fn update_set_appends_in_call_order() {
    let set = UpdateSet::new()
        .set("score", SqlValue::Float(10.0f64.to_bits()))
        .set("active", SqlValue::Int(0));
    assert_eq!(set.assignments.len(), 2);
    assert_eq!(set.assignments[0].0, "score");
    assert_eq!(set.assignments[1].0, "active");
    assert_eq!(set.assignments[1].1, SqlValue::Int(0));
}

#[test]
fn update_binds_set_values_then_where_values() {
    let set = UpdateSet::new()
        .set("score", SqlValue::Float(10.0f64.to_bits()))
        .set("name", SqlValue::Text("bob".into()));
    let w = WhereClause::new("username = ? OR id = ?", vec![
        SqlValue::Text("alice".into()),
        SqlValue::Int(3),
    ]);
    let s = update_statement("users", set, w);
    assert_eq!(s.sql, "UPDATE users SET score = ?, name = ? WHERE username = ? OR id = ?");
    assert_eq!(
        s.params,
        vec![
            SqlValue::Float(10.0f64.to_bits()),
            SqlValue::Text("bob".into()),
            SqlValue::Text("alice".into()),
            SqlValue::Int(3),
        ]
    );
}

#[test]
fn update_text_does_not_depend_on_values() {
    let a = update_statement(
        "t",
        UpdateSet::new().set("x", SqlValue::Int(1)),
        WhereClause::new("y = ?", vec![SqlValue::Null]),
    );
    let b = update_statement(
        "t",
        UpdateSet::new().set("x", SqlValue::Blob(vec![1, 2])),
        WhereClause::new("y = ?", vec![SqlValue::Text("'; DROP TABLE t; --".into())]),
    );
    assert_eq!(a.sql, b.sql);
    assert_eq!(a.sql, "UPDATE t SET x = ? WHERE y = ?");
}

#[test]
fn delete_requires_a_clause() {
    let s = delete_statement("users", WhereClause::new("active = ?", vec![SqlValue::Int(0)]));
    assert_eq!(s.sql, "DELETE FROM users WHERE active = ?");
    assert_eq!(s.params, vec![SqlValue::Int(0)]);
}

#[test]
fn count_without_and_with_filter() {
    let s = count_statement("users", None);
    assert_eq!(s.sql, "SELECT COUNT(*) FROM users");
    assert!(s.params.is_empty());
    let s = count_statement("users", Some(WhereClause::new("age > ?", vec![SqlValue::Int(30)])));
    assert_eq!(s.sql, "SELECT COUNT(*) FROM users WHERE age > ?");
    assert_eq!(s.params, vec![SqlValue::Int(30)]);
}

#[test]
fn where_text_does_not_depend_on_values() {
    let a = count_statement("t", Some(WhereClause::new("k = ?", vec![SqlValue::Int(1)])));
    let b = count_statement("t", Some(WhereClause::new("k = ?", vec![SqlValue::Text("x".into())])));
    assert_eq!(a.sql, b.sql);
}
