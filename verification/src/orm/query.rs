//! # query
//!
//! Composable builders for the parameterised parts of SQL statements.
//!
//! - [`WhereClause`] — pairs a `?`-placeholder expression with its bind values.
//! - [`UpdateSet`] — accumulates `col = ?` assignments for UPDATE statements.
//!
//! Both keep every value as a typed [`SqlValue`] so the statements built from
//! them bind their values as parameters and never splice them into the text.

use vstd::prelude::*;
use super::types::SqlValue;

verus! {

/// A parameterised WHERE expression with its bound values.
///
/// The `expr` string uses `?` placeholders; `params` must appear in the same
/// order as the placeholders.
pub struct WhereClause {
    /// SQL expression using `?` placeholders (e.g. `"id = ?"`)
    pub expr: String,
    /// Bind parameters in placeholder order.
    pub params: Vec<SqlValue>,
}

impl WhereClause {
    /// Pairs the expression `expr` with its bind values `params`.
    pub fn new(expr: &str, params: Vec<SqlValue>) -> (res: Self)
        ensures
            res.expr@ == expr@,
            res.params@ == params@,
    {
        WhereClause { expr: String::from_str(expr), params }
    }
}

/// A fluent builder for the SET clause of an UPDATE statement.
///
/// Each call to `.set()` appends a `col = ?` assignment; the assignments are
/// rendered and bound in the order of the calls.
pub struct UpdateSet {
    /// Ordered list of (column name, new value) pairs.
    pub assignments: Vec<(String, SqlValue)>,
}

impl UpdateSet {
    /// An empty set of assignments.
    pub fn new() -> (res: Self)
        ensures
            res.assignments@.len() == 0,
    {
        UpdateSet { assignments: Vec::new() }
    }

    /// Append a `column = value` assignment after the existing ones.
    pub fn set(self, col: &str, val: SqlValue) -> (res: Self)
        ensures
            res.assignments@.len() == self.assignments@.len() + 1,
            res.assignments@.drop_last() == self.assignments@,
            res.assignments@.last().0@ == col@,
            res.assignments@.last().1 == val,
    {
        let mut assignments = self.assignments;
        assignments.push((String::from_str(col), val));
        proof {
            assert(assignments@.drop_last() =~= self.assignments@);
        }
        UpdateSet { assignments }
    }
}

} // verus!
