//! # types
//!
//! Primitive type vocabulary for the sqlite3 client.
//!
//! - [`Sqlite3Type`] — column affinity enum used when declaring schema columns;
//!   renders into DDL fragments with [`Sqlite3Type::to_string`].
//! - [`SqlValue`] — a runtime-typed SQL bind parameter.

use vstd::prelude::*;
use super::text::{decimal, push_decimal};

verus! {

/// SQLite column type affinities, plus `Varchar(n)` as a common convenience.
///
/// `Boolean` is stored as `INTEGER` (0 / 1) because SQLite has no native bool.
/// `Varchar(n)` is stored as `TEXT`; SQLite ignores the length at the engine
/// level, but it documents intent and appears verbatim in DDL.
#[derive(Debug, Clone)]
pub enum Sqlite3Type {
    Integer,
    Real,
    Text,
    Blob,
    /// Stored as TEXT; `n` is advisory and appears verbatim in DDL.
    Varchar(usize),
    /// Stored as INTEGER (0 = false, 1 = true).
    Boolean,
    Null,
}

impl Sqlite3Type {
    /// The DDL spelling of this affinity.
    pub open spec fn sql_name(self) -> Seq<char> {
        match self {
            Sqlite3Type::Integer => "INTEGER"@,
            Sqlite3Type::Real => "REAL"@,
            Sqlite3Type::Text => "TEXT"@,
            Sqlite3Type::Blob => "BLOB"@,
            Sqlite3Type::Varchar(n) => "VARCHAR("@ + decimal(n as nat) + ")"@,
            Sqlite3Type::Boolean => "INTEGER"@,
            Sqlite3Type::Null => "NULL"@,
        }
    }

    /// The DDL spelling of each affinity: `INTEGER`, `REAL`, `TEXT`, `BLOB`,
    /// `VARCHAR(<n in decimal>)`, `INTEGER` for a boolean (stored as 0 / 1),
    /// and `NULL`.
    pub proof fn lemma_sql_names(n: usize)
        ensures
            Sqlite3Type::Integer.sql_name() == "INTEGER"@,
            Sqlite3Type::Real.sql_name() == "REAL"@,
            Sqlite3Type::Text.sql_name() == "TEXT"@,
            Sqlite3Type::Blob.sql_name() == "BLOB"@,
            Sqlite3Type::Varchar(n).sql_name() == "VARCHAR("@ + decimal(n as nat) + ")"@,
            Sqlite3Type::Boolean.sql_name() == Sqlite3Type::Integer.sql_name(),
            Sqlite3Type::Null.sql_name() == "NULL"@,
    {
    }

    /// Renders this affinity as it appears in DDL, e.g. `INTEGER` or
    /// `VARCHAR(64)`.
    pub fn to_string(&self) -> (res: String)
        ensures
            res@ == self.sql_name(),
    {
        match self {
            Sqlite3Type::Integer => String::from_str("INTEGER"),
            Sqlite3Type::Real => String::from_str("REAL"),
            Sqlite3Type::Text => String::from_str("TEXT"),
            Sqlite3Type::Blob => String::from_str("BLOB"),
            Sqlite3Type::Varchar(n) => {
                let mut s = String::from_str("VARCHAR(");
                push_decimal(&mut s, *n);
                s.append(")");
                s
            },
            Sqlite3Type::Boolean => String::from_str("INTEGER"),
            Sqlite3Type::Null => String::from_str("NULL"),
        }
    }
}

/// A heterogeneous SQL bind-parameter value.
///
/// A `Float` carries the IEEE-754 bit pattern of the `f64` it stands for (as
/// given by `f64::to_bits`); the value is bound unchanged, so no arithmetic is
/// ever done on it here.
#[derive(Debug, PartialEq)]
pub enum SqlValue {
    Int(i64),
    Float(u64),
    Text(String),
    Blob(Vec<u8>),
    Null,
}

} // verus!
