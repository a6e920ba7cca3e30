use aoi::prelude::{
    alter_step, alter_steps, create_table_sql, drop_column_statements, drop_table_sql, AlterOp,
    AlterStep, Column, Sqlite3Type,
};

fn user_columns() -> Vec<Column> {
    vec![
        Column::new("id", Sqlite3Type::Integer).primary_key(),
        Column::new("username", Sqlite3Type::Varchar(64)).not_null().unique(),
        Column::new("email", Sqlite3Type::Text).not_null().unique(),
        Column::new("score", Sqlite3Type::Real).default("0.0"),
    ]
}

#[test]
fn create_table_from_columns() {
    assert_eq!(
        create_table_sql("users", &user_columns()),
        "CREATE TABLE IF NOT EXISTS users (id INTEGER PRIMARY KEY, \
         username VARCHAR(64) NOT NULL UNIQUE, email TEXT NOT NULL UNIQUE, \
         score REAL DEFAULT 0.0)"
    );
}

#[test]
fn create_table_with_one_and_no_columns() {
    let one = vec![Column::new("id", Sqlite3Type::Integer).primary_key()];
    assert_eq!(
        create_table_sql("t", &one),
        "CREATE TABLE IF NOT EXISTS t (id INTEGER PRIMARY KEY)"
    );
    assert_eq!(create_table_sql("t", &[]), "CREATE TABLE IF NOT EXISTS t ()");
}

#[test]
fn drop_table_statement() {
    assert_eq!(drop_table_sql("users"), "DROP TABLE IF EXISTS users");
}

fn single(step: Result<AlterStep, String>) -> String {
    match step {
        Ok(AlterStep::Execute(s)) => s,
        _ => panic!("expected a single statement"),
    }
}

#[test]
fn alter_add_column() {
    let op = AlterOp::AddColumn(Column::new("bio", Sqlite3Type::Text).default("''"));
    assert_eq!(
        single(alter_step("users", &user_columns(), &op)),
        "ALTER TABLE users ADD COLUMN bio TEXT DEFAULT ''"
    );
}

#[test]
fn alter_rename_column() {
    let op = AlterOp::RenameColumn { from: "bio".into(), to: "biography".into() };
    assert_eq!(
        single(alter_step("users", &user_columns(), &op)),
        "ALTER TABLE users RENAME COLUMN bio TO biography"
    );
}

#[test]
fn alter_rename_table() {
    let op = AlterOp::RenameTable("members".into());
    assert_eq!(
        single(alter_step("users", &user_columns(), &op)),
        "ALTER TABLE users RENAME TO members"
    );
}

#[test]
fn alter_drop_column_runs_four_statements_atomically() {
    let op = AlterOp::DropColumn("email".into());
    match alter_step("users", &user_columns(), &op) {
        Ok(AlterStep::Atomic(v)) => assert_eq!(
            v,
            vec![
                "CREATE TABLE __temp_users (id INTEGER PRIMARY KEY, \
                 username VARCHAR(64) NOT NULL UNIQUE, score REAL DEFAULT 0.0)"
                    .to_string(),
                "INSERT INTO __temp_users (id, username, score) SELECT id, username, score FROM users"
                    .to_string(),
                "DROP TABLE users".to_string(),
                "ALTER TABLE __temp_users RENAME TO users".to_string(),
            ]
        ),
        _ => panic!("expected a transaction"),
    }
}

#[test]
fn alter_drop_unknown_column_is_refused() {
    let op = AlterOp::DropColumn("nope".into());
    match alter_step("users", &user_columns(), &op) {
        Err(m) => assert_eq!(m, "column 'nope' not found in schema for table 'users'"),
        _ => panic!("expected an error"),
    }
    assert_eq!(
        drop_column_statements("t", &[], "x"),
        Err("column 'x' not found in schema for table 't'".to_string())
    );
}

#[test]
fn drop_column_removes_every_column_of_that_name() {
    let cols = vec![
        Column::new("a", Sqlite3Type::Integer),
        Column::new("b", Sqlite3Type::Text),
        Column::new("a", Sqlite3Type::Blob),
    ];
    let v = drop_column_statements("t", &cols, "a").unwrap();
    assert_eq!(v[0], "CREATE TABLE __temp_t (b TEXT)");
    assert_eq!(v[1], "INSERT INTO __temp_t (b) SELECT b FROM t");
}

#[test]
fn drop_last_column_leaves_an_empty_list() {
    let cols = vec![Column::new("a", Sqlite3Type::Integer)];
    let v = drop_column_statements("t", &cols, "a").unwrap();
    assert_eq!(v[0], "CREATE TABLE __temp_t ()");
    assert_eq!(v[1], "INSERT INTO __temp_t () SELECT  FROM t");
}

#[test]
fn alter_steps_in_order() {
    let ops = vec![
        AlterOp::AddColumn(Column::new("bio", Sqlite3Type::Text).default("''")),
        AlterOp::RenameColumn { from: "bio".into(), to: "biography".into() },
        AlterOp::RenameTable("members".into()),
    ];
    let (steps, refused) = alter_steps("users", &user_columns(), &ops);
    assert!(refused.is_none());
    let texts: Vec<String> = steps.into_iter().map(|s| single(Ok(s))).collect();
    assert_eq!(
        texts,
        vec![
            "ALTER TABLE users ADD COLUMN bio TEXT DEFAULT ''".to_string(),
            "ALTER TABLE users RENAME COLUMN bio TO biography".to_string(),
            "ALTER TABLE users RENAME TO members".to_string(),
        ]
    );
}

#[test]
fn alter_steps_stop_at_the_first_refused_drop() {
    let ops = vec![
        AlterOp::RenameColumn { from: "a".into(), to: "b".into() },
        AlterOp::DropColumn("nope".into()),
        AlterOp::RenameTable("members".into()),
    ];
    let (steps, refused) = alter_steps("users", &user_columns(), &ops);
    assert_eq!(steps.len(), 1);
    assert_eq!(
        single(Ok(steps.into_iter().next().unwrap())),
        "ALTER TABLE users RENAME COLUMN a TO b"
    );
    assert_eq!(
        refused,
        Some("column 'nope' not found in schema for table 'users'".to_string())
    );
}

#[test]
fn alter_steps_of_no_ops() {
    let (steps, refused) = alter_steps("users", &user_columns(), &[]);
    assert!(steps.is_empty());
    assert!(refused.is_none());
}
