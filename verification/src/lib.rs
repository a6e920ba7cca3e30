//! # aoi
//!
//! The statement-building core of a typed SQLite client.
//!
//! Every piece of SQL text the client sends (table DDL, `ALTER TABLE`
//! migrations, and the parameterised INSERT / SELECT / UPDATE / DELETE /
//! COUNT statements) is produced here, together with the ordered list of bind
//! values that go with it. Each builder carries a contract that pins down the
//! exact text it returns.

mod orm;

pub mod prelude;
