//! Re-exports every type and function needed for day-to-day use.

pub use crate::orm::alter::AlterOp;
pub use crate::orm::ddl::{
    alter_step, alter_steps, create_table_sql, drop_column_statements, drop_table_sql, AlterStep,
};
pub use crate::orm::dml::{
    count_statement, delete_statement, insert_sql, select_all_statement, select_one_statement,
    update_statement, upsert_sql, Statement,
};
pub use crate::orm::query::{UpdateSet, WhereClause};
pub use crate::orm::schema::{non_pk_columns, primary_key_columns, Column, ColumnBuilder};
pub use crate::orm::types::{SqlValue, Sqlite3Type};
