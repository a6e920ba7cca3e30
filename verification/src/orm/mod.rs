//! Internal module tree; each sub-module owns one logical concern.

pub mod text;
pub mod types;
pub mod schema;
pub mod alter;
pub mod query;
pub mod ddl;
pub mod dml;
