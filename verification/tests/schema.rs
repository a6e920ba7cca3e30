use aoi::prelude::{non_pk_columns, Column, SqlValue, Sqlite3Type};

#[test]
fn sqlite3_type_renders_each_affinity() {
    assert_eq!(Sqlite3Type::Integer.to_string(), "INTEGER");
    assert_eq!(Sqlite3Type::Real.to_string(), "REAL");
    assert_eq!(Sqlite3Type::Text.to_string(), "TEXT");
    assert_eq!(Sqlite3Type::Blob.to_string(), "BLOB");
    assert_eq!(Sqlite3Type::Null.to_string(), "NULL");
}

#[test]
fn boolean_is_stored_as_integer() {
    assert_eq!(Sqlite3Type::Boolean.to_string(), Sqlite3Type::Integer.to_string());
    assert_eq!(Sqlite3Type::Boolean.to_string(), "INTEGER");
}

#[test]
fn varchar_length_appears_verbatim() {
    assert_eq!(Sqlite3Type::Varchar(64).to_string(), "VARCHAR(64)");
    assert_eq!(Sqlite3Type::Varchar(0).to_string(), "VARCHAR(0)");
    assert_eq!(Sqlite3Type::Varchar(7).to_string(), "VARCHAR(7)");
    assert_eq!(Sqlite3Type::Varchar(1000).to_string(), "VARCHAR(1000)");
    assert_eq!(
        Sqlite3Type::Varchar(usize::MAX).to_string(),
        format!("VARCHAR({})", usize::MAX)
    );
}

#[test]
fn new_column_has_no_constraints() {
    let c = Column::new("age", Sqlite3Type::Integer);
    assert_eq!(c.name, "age");
    assert!(!c.primary_key);
    assert!(!c.not_null);
    assert!(!c.unique);
    assert!(c.default.is_none());
    assert_eq!(c.to_ddl(), "age INTEGER");
}

#[test]
fn builders_set_one_constraint_each() {
    let c = Column::new("id", Sqlite3Type::Integer).primary_key();
    assert!(c.primary_key && !c.not_null && !c.unique && c.default.is_none());
    let c = Column::new("a", Sqlite3Type::Text).not_null();
    assert!(!c.primary_key && c.not_null && !c.unique && c.default.is_none());
    let c = Column::new("a", Sqlite3Type::Text).unique();
    assert!(!c.primary_key && !c.not_null && c.unique && c.default.is_none());
    let c = Column::new("a", Sqlite3Type::Text).default("'guest'");
    assert!(!c.primary_key && !c.not_null && !c.unique);
    assert_eq!(c.default.as_deref(), Some("'guest'"));
}

#[test]
fn column_ddl_example_from_docs() {
    let c = Column::new("email", Sqlite3Type::Text).not_null().unique();
    assert_eq!(c.to_ddl(), "email TEXT NOT NULL UNIQUE");
}

#[test]
fn column_ddl_orders_constraints() {
    let c = Column::new("active", Sqlite3Type::Boolean)
        .default("1")
        .unique()
        .not_null()
        .primary_key();
    assert_eq!(c.to_ddl(), "active INTEGER PRIMARY KEY NOT NULL UNIQUE DEFAULT 1");
    let c = Column::new("score", Sqlite3Type::Real).default("0.0");
    assert_eq!(c.to_ddl(), "score REAL DEFAULT 0.0");
    let c = Column::new("username", Sqlite3Type::Varchar(64)).not_null().unique();
    assert_eq!(c.to_ddl(), "username VARCHAR(64) NOT NULL UNIQUE");
}

#[test]
fn non_pk_columns_strips_primary_keys_in_order() {
    let cols = vec![
        Column::new("id", Sqlite3Type::Integer).primary_key(),
        Column::new("name", Sqlite3Type::Text),
        Column::new("code", Sqlite3Type::Text).primary_key(),
        Column::new("age", Sqlite3Type::Integer),
    ];
    let rest = non_pk_columns(cols);
    let names: Vec<&str> = rest.iter().map(|c| c.name).collect();
    assert_eq!(names, vec!["name", "age"]);
    assert!(rest.iter().all(|c| !c.primary_key));
}

#[test]
fn non_pk_columns_of_empty_and_all_pk() {
    assert!(non_pk_columns(vec![]).is_empty());
    let only = vec![Column::new("id", Sqlite3Type::Integer).primary_key()];
    assert!(non_pk_columns(only).is_empty());
}

#[test]
fn float_values_carry_their_bits() {
    let v = SqlValue::Float(10.5f64.to_bits());
    match v {
        SqlValue::Float(b) => assert_eq!(f64::from_bits(b), 10.5),
        _ => panic!("expected a float"),
    }
}

#[test]
fn builder_order_and_repeats_do_not_change_ddl() {
    let a = Column::new("email", Sqlite3Type::Text)
        .unique()
        .default("''")
        .not_null()
        .primary_key();
    let b = Column::new("email", Sqlite3Type::Text)
        .primary_key()
        .not_null()
        .unique()
        .unique()
        .default("'x'")
        .primary_key()
        .default("''");
    assert_eq!(a.to_ddl(), b.to_ddl());
    assert_eq!(a.to_ddl(), "email TEXT PRIMARY KEY NOT NULL UNIQUE DEFAULT ''");
}

#[test]
fn primary_key_columns_keeps_only_keys_in_order() {
    let cols = vec![
        Column::new("id", Sqlite3Type::Integer).primary_key(),
        Column::new("name", Sqlite3Type::Text),
        Column::new("code", Sqlite3Type::Text).primary_key(),
    ];
    let keys = aoi::prelude::primary_key_columns(cols);
    let names: Vec<&str> = keys.iter().map(|c| c.name).collect();
    assert_eq!(names, vec!["id", "code"]);
}
