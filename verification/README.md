# aoi

The statement-building core of a typed SQLite client.

`src/` holds everything that decides what SQL is sent: column DDL, CREATE /
DROP TABLE, the steps of each `ALTER TABLE` operation (including the
copy-and-rename emulation of DROP COLUMN and its refusal of unknown columns),
and the parameterised INSERT / SELECT / UPDATE / DELETE / COUNT statements with
their bind values in placeholder order. Every builder's contract states the
exact text it returns.

`app/` holds the database side: `Sqlite3Client` (a `rusqlite::Connection`),
the `TableSchema` trait that binds a struct to its rows, and the methods that
run the built statements.

```
src/
├── lib.rs, prelude.rs
└── orm/
    ├── text.rs     — joining fragments, decimal rendering
    ├── types.rs    — Sqlite3Type, SqlValue
    ├── schema.rs   — Column, builders, non_pk_columns, primary_key_columns
    ├── query.rs    — WhereClause, UpdateSet
    ├── alter.rs    — AlterOp
    ├── ddl.rs      — CREATE / DROP / ALTER statements
    └── dml.rs      — INSERT / SELECT / UPDATE / DELETE / COUNT statements
app/lib.rs          — Sqlite3Client, TableSchema
```
