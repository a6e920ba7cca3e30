//! # alter
//!
//! The [`AlterOp`] enum describes a single schema mutation.
//!
//! SQLite natively supports ADD COLUMN, RENAME COLUMN and RENAME TABLE.
//! `DropColumn` is emulated: create a new table with the surviving columns,
//! copy all rows, drop the original, and rename the copy. The whole sequence
//! runs inside a single transaction so it is atomic and rolls back cleanly on
//! any error.

use vstd::prelude::*;
use super::schema::Column;

verus! {

/// A single schema alteration.
#[derive(Debug)]
pub enum AlterOp {
    /// `ALTER TABLE … ADD COLUMN …`
    ///
    /// The column must either be nullable or carry a DEFAULT value;
    /// otherwise SQLite will reject the statement.
    AddColumn(Column),

    /// `ALTER TABLE … RENAME COLUMN <from> TO <to>`
    RenameColumn {
        /// Existing column name.
        from: String,
        /// New column name.
        to: String,
    },

    /// `ALTER TABLE … RENAME TO <new_name>`
    ///
    /// Note: after renaming, the schema's table name still names the old
    /// table; later operations that use it will fail.
    RenameTable(String),

    /// Remove a column by name (emulated — see module docs).
    ///
    /// Refused when the column does not appear in the schema's columns.
    DropColumn(String),
}

} // verus!
