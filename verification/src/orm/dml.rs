//! # dml
//!
//! Data Manipulation Language statements: INSERT, SELECT, UPDATE, DELETE and
//! COUNT.
//!
//! Every statement is parameterised: values travel in [`Statement::params`]
//! in placeholder order and are never spliced into the SQL text.

use vstd::prelude::*;
use super::ddl::column_names;
use super::query::{UpdateSet, WhereClause};
use super::schema::{pk_flag_is, Column};
use super::text::{join, join_strings, texts};
use super::types::SqlValue;

verus! {

/// A SQL statement together with its bind values, in placeholder order.
pub struct Statement {
    /// SQL text with `?` placeholders.
    pub sql: String,
    /// Values bound to the placeholders, in order.
    pub params: Vec<SqlValue>,
}

/// `n` placeholders `?`.
pub open spec fn placeholders(n: nat) -> Seq<Seq<char>> {
    Seq::new(n, |i: int| "?"@)
}

/// `<verb> <table> (<names, joined by ", ">) VALUES (<one ? per column, joined by ", ">)`
pub open spec fn insert_text_with(verb: Seq<char>, table: Seq<char>, cols: Seq<Column>) -> Seq<char> {
    verb + table + " ("@ + join(column_names(cols), ", "@) + ") VALUES ("@ + join(
        placeholders(cols.len()),
        ", "@,
    ) + ")"@
}

/// `INSERT INTO <table> (<names>) VALUES (?, …)`
pub open spec fn insert_text(table: Seq<char>, cols: Seq<Column>) -> Seq<char> {
    insert_text_with("INSERT INTO "@, table, cols)
}

/// `INSERT OR REPLACE INTO <table> (<names>) VALUES (?, …)`
pub open spec fn upsert_text(table: Seq<char>, cols: Seq<Column>) -> Seq<char> {
    insert_text_with("INSERT OR REPLACE INTO "@, table, cols)
}

/// ` WHERE <expr>` for a clause, nothing without one.
pub open spec fn where_suffix(w: Option<WhereClause>) -> Seq<char> {
    match w {
        Some(c) => " WHERE "@ + c.expr@,
        None => Seq::empty(),
    }
}

/// The bind values of an optional clause; none without one.
pub open spec fn where_params(w: Option<WhereClause>) -> Seq<SqlValue> {
    match w {
        Some(c) => c.params@,
        None => Seq::empty(),
    }
}

/// `SELECT * FROM <table>` followed by the optional WHERE clause.
pub open spec fn select_all_text(table: Seq<char>, w: Option<WhereClause>) -> Seq<char> {
    "SELECT * FROM "@ + table + where_suffix(w)
}

/// `SELECT * FROM <table> WHERE <expr> LIMIT 1`
pub open spec fn select_one_text(table: Seq<char>, expr: Seq<char>) -> Seq<char> {
    "SELECT * FROM "@ + table + " WHERE "@ + expr + " LIMIT 1"@
}

/// `<col> = ?` for each assignment, in order.
pub open spec fn assignment_texts(a: Seq<(String, SqlValue)>) -> Seq<Seq<char>> {
    a.map_values(|p: (String, SqlValue)| p.0@ + " = ?"@)
}

/// The new values of the assignments, in order.
pub open spec fn assignment_values(a: Seq<(String, SqlValue)>) -> Seq<SqlValue> {
    a.map_values(|p: (String, SqlValue)| p.1)
}

/// `UPDATE <table> SET <col = ?, joined by ", "> WHERE <expr>`
pub open spec fn update_text(table: Seq<char>, a: Seq<(String, SqlValue)>, expr: Seq<char>) -> Seq<
    char,
> {
    "UPDATE "@ + table + " SET "@ + join(assignment_texts(a), ", "@) + " WHERE "@ + expr
}

/// `DELETE FROM <table> WHERE <expr>`
pub open spec fn delete_text(table: Seq<char>, expr: Seq<char>) -> Seq<char> {
    "DELETE FROM "@ + table + " WHERE "@ + expr
}

/// `SELECT COUNT(*) FROM <table>` followed by the optional WHERE clause.
pub open spec fn count_text(table: Seq<char>, w: Option<WhereClause>) -> Seq<char> {
    "SELECT COUNT(*) FROM "@ + table + where_suffix(w)
}

/// An INSERT (and an upsert) names every column it is given, in the given
/// order, joined by `", "`, with exactly one `?` placeholder per column.
pub proof fn lemma_insert_texts(table: Seq<char>, cols: Seq<Column>)
    ensures
        insert_text(table, cols) == "INSERT INTO "@ + table + " ("@ + join(
            cols.map_values(|c: Column| c.name@),
            ", "@,
        ) + ") VALUES ("@ + join(Seq::new(cols.len(), |i: int| "?"@), ", "@) + ")"@,
        upsert_text(table, cols) == "INSERT OR REPLACE INTO "@ + table + " ("@ + join(
            cols.map_values(|c: Column| c.name@),
            ", "@,
        ) + ") VALUES ("@ + join(Seq::new(cols.len(), |i: int| "?"@), ", "@) + ")"@,
        column_names(cols).len() == cols.len(),
        forall|i: int| 0 <= i < cols.len() ==> #[trigger] column_names(cols)[i] == cols[i].name@,
        placeholders(cols.len()).len() == cols.len(),
        forall|i: int| 0 <= i < cols.len() ==> #[trigger] placeholders(cols.len())[i] == "?"@,
{
    assert(column_names(cols) =~= cols.map_values(|c: Column| c.name@));
    assert(placeholders(cols.len()) =~= Seq::new(cols.len(), |i: int| "?"@));
}

/// A SELECT or COUNT with a clause ends in ` WHERE <expr>` and binds the
/// clause's values unchanged and in order; without one it has no WHERE and
/// binds nothing.
pub proof fn lemma_where_clause_binding(table: Seq<char>, w: WhereClause)
    ensures
        select_all_text(table, Some(w)) == "SELECT * FROM "@ + table + " WHERE "@ + w.expr@,
        select_all_text(table, None) == "SELECT * FROM "@ + table,
        count_text(table, Some(w)) == "SELECT COUNT(*) FROM "@ + table + " WHERE "@ + w.expr@,
        count_text(table, None) == "SELECT COUNT(*) FROM "@ + table,
        where_params(Some(w)) == w.params@,
        where_params(None) == Seq::<SqlValue>::empty(),
{
    assert(select_all_text(table, None) =~= "SELECT * FROM "@ + table);
    assert(count_text(table, None) =~= "SELECT COUNT(*) FROM "@ + table);
}

/// The k-th `col = ?` of an UPDATE's SET list is the k-th assignment's
/// column, and the k-th bound value is that assignment's value; the WHERE
/// values follow, unchanged and in order.
pub proof fn lemma_update_binds_in_order(
    a: Seq<(String, SqlValue)>,
    where_values: Seq<SqlValue>,
)
    ensures
        assignment_texts(a).len() == a.len(),
        forall|k: int| 0 <= k < a.len() ==> #[trigger] assignment_texts(a)[k] == a[k].0@ + " = ?"@,
        (assignment_values(a) + where_values).len() == a.len() + where_values.len(),
        forall|k: int|
            0 <= k < a.len() ==> (assignment_values(a) + where_values)[k] == (#[trigger] a[k]).1,
        forall|j: int|
            0 <= j < where_values.len() ==> (assignment_values(a) + where_values)[a.len() + j]
                == #[trigger] where_values[j],
{
}

/// Values are bound, never spliced into the text: the text of an UPDATE
/// depends on the table, the assigned column names and the WHERE expression
/// only, whatever values are assigned.
pub proof fn lemma_update_text_ignores_values(
    table: Seq<char>,
    a1: Seq<(String, SqlValue)>,
    a2: Seq<(String, SqlValue)>,
    expr: Seq<char>,
)
    requires
        a1.len() == a2.len(),
        forall|i: int| 0 <= i < a1.len() ==> #[trigger] a1[i].0@ == a2[i].0@,
    ensures
        update_text(table, a1, expr) == update_text(table, a2, expr),
{
    assert(assignment_texts(a1) =~= assignment_texts(a2));
}

/// Values are bound, never spliced into the text: the texts of the SELECT,
/// SELECT-one, DELETE and COUNT statements of two clauses with the same
/// expression are the same, whatever values the clauses bind.
pub proof fn lemma_where_text_ignores_values(table: Seq<char>, w1: WhereClause, w2: WhereClause)
    requires
        w1.expr@ == w2.expr@,
    ensures
        select_all_text(table, Some(w1)) == select_all_text(table, Some(w2)),
        select_one_text(table, w1.expr@) == select_one_text(table, w2.expr@),
        delete_text(table, w1.expr@) == delete_text(table, w2.expr@),
        count_text(table, Some(w1)) == count_text(table, Some(w2)),
{
}

/// The INSERT text after `verb` for the columns named `names`: table,
/// column list and one placeholder per name.
fn insert_sql_for_names(verb: &str, table: &str, names: &Vec<String>) -> (res: String)
    ensures
        res@ == verb@ + table@ + " ("@ + join(texts(names@), ", "@) + ") VALUES ("@ + join(
            placeholders(names@.len()),
            ", "@,
        ) + ")"@,
{
    let mut marks: Vec<String> = Vec::new();
    let mut i: usize = 0;
    while i < names.len()
        invariant
            i <= names@.len(),
            marks@.len() == i,
            forall|j: int| 0 <= j < i ==> #[trigger] marks@[j]@ == "?"@,
        decreases names.len() - i,
    {
        marks.push(String::from_str("?"));
        i = i + 1;
    }
    proof {
        assert(texts(marks@) =~= placeholders(names@.len()));
    }
    let names_csv = join_strings(names, ", ");
    let marks_csv = join_strings(&marks, ", ");
    let mut s = String::from_str(verb);
    s.append(table);
    s.append(" (");
    s.append(names_csv.as_str());
    s.append(") VALUES (");
    s.append(marks_csv.as_str());
    s.append(")");
    s
}

/// The INSERT text after `verb`: table, column list and placeholders.
fn insert_sql_with(verb: &str, table: &str, columns: &[Column]) -> (res: String)
    ensures
        res@ == insert_text_with(verb@, table@, columns@),
{
    let names = super::ddl::name_list(columns);
    insert_sql_for_names(verb, table, &names)
}

/// The statement that inserts one row into `table`, binding one value for
/// each of `columns` (the non-primary-key columns), in order.
pub fn insert_sql(table: &str, columns: &[Column]) -> (res: String)
    ensures
        res@ == insert_text(table@, columns@),
        res@ == "INSERT INTO "@ + table@ + " ("@ + join(
            columns@.map_values(|c: Column| c.name@),
            ", "@,
        ) + ") VALUES ("@ + join(Seq::new(columns@.len(), |i: int| "?"@), ", "@) + ")"@,
{
    proof {
        lemma_insert_texts(table@, columns@);
    }
    insert_sql_with("INSERT INTO ", table, columns)
}

/// The `INSERT OR REPLACE` statement for one row of `table`, binding one
/// value for each of `key_columns`, then one for each of `value_columns`.
///
/// With the primary-key columns as `key_columns`, the key is bound, so a row
/// whose key already exists is replaced by the new one; SQLite also replaces
/// a row the new one clashes with on another UNIQUE column.
pub fn upsert_sql(table: &str, key_columns: &[Column], value_columns: &[Column]) -> (res: String)
    ensures
        res@ == upsert_text(table@, key_columns@ + value_columns@),
        res@ == "INSERT OR REPLACE INTO "@ + table@ + " ("@ + join(
            (key_columns@ + value_columns@).map_values(|c: Column| c.name@),
            ", "@,
        ) + ") VALUES ("@ + join(
            Seq::new(key_columns@.len() + value_columns@.len(), |i: int| "?"@),
            ", "@,
        ) + ")"@,
{
    proof {
        lemma_insert_texts(table@, key_columns@ + value_columns@);
    }
    let mut names = super::ddl::name_list(key_columns);
    let mut rest = super::ddl::name_list(value_columns);
    let ghost first = names@;
    let ghost second = rest@;
    names.append(&mut rest);
    proof {
        assert(texts(names@) =~= texts(first) + texts(second));
        assert(column_names(key_columns@ + value_columns@) =~= column_names(key_columns@)
            + column_names(value_columns@));
        assert(texts(names@) == column_names(key_columns@ + value_columns@));
    }
    insert_sql_for_names("INSERT OR REPLACE INTO ", table, &names)
}

/// An upsert built over the primary-key columns of a schema (then any value
/// columns) names and binds every primary-key column of that schema, ahead
/// of the value columns, so a row whose key already exists is the one that is
/// replaced.
pub proof fn lemma_upsert_binds_every_primary_key(
    table: Seq<char>,
    cols: Seq<Column>,
    values: Seq<Column>,
)
    ensures
        forall|i: int|
            0 <= i < cols.len() && cols[i].primary_key ==> column_names(
                cols.filter(pk_flag_is(true)) + values,
            ).contains(#[trigger] cols[i].name@),
        column_names(cols.filter(pk_flag_is(true)) + values).take(
            cols.filter(pk_flag_is(true)).len() as int,
        ) == column_names(cols.filter(pk_flag_is(true))),
{
    let keys = cols.filter(pk_flag_is(true));
    let all = keys + values;
    assert forall|i: int| 0 <= i < cols.len() && cols[i].primary_key implies column_names(
        all,
    ).contains(#[trigger] cols[i].name@) by {
        cols.lemma_filter_contains(pk_flag_is(true), i);
        let j = choose|j: int| 0 <= j < keys.len() && keys[j] == cols[i];
        assert(all[j] == cols[i]);
        assert(column_names(all)[j] == cols[i].name@);
    }
    assert(column_names(all).take(keys.len() as int) =~= column_names(keys));
}

/// Splits an optional clause into its SQL suffix and its bind values.
fn where_parts(where_clause: Option<WhereClause>) -> (res: (String, Vec<SqlValue>))
    ensures
        res.0@ == where_suffix(where_clause),
        res.1@ == where_params(where_clause),
{
    match where_clause {
        Some(w) => {
            let mut s = String::from_str(" WHERE ");
            s.append(w.expr.as_str());
            (s, w.params)
        },
        None => (String::new(), Vec::new()),
    }
}

/// The statement that reads every row of `table`, filtered by the clause
/// when there is one.
pub fn select_all_statement(table: &str, where_clause: Option<WhereClause>) -> (res: Statement)
    ensures
        res.sql@ == select_all_text(table@, where_clause),
        res.params@ == where_params(where_clause),
        where_clause matches Some(w) ==> res.sql@ == "SELECT * FROM "@ + table@ + " WHERE "@
            + w.expr@ && res.params@ == w.params@,
        where_clause is None ==> res.sql@ == "SELECT * FROM "@ + table@ && res.params@.len()
            == 0,
{
    let (cond, params) = where_parts(where_clause);
    let mut sql = String::from_str("SELECT * FROM ");
    sql.append(table);
    sql.append(cond.as_str());
    Statement { sql, params }
}

/// The statement that reads the first row of `table` matching the clause.
pub fn select_one_statement(table: &str, where_clause: WhereClause) -> (res: Statement)
    ensures
        res.sql@ == select_one_text(table@, where_clause.expr@),
        res.params@ == where_clause.params@,
        res.sql@ == "SELECT * FROM "@ + table@ + " WHERE "@ + where_clause.expr@ + " LIMIT 1"@,
{
    let mut sql = String::from_str("SELECT * FROM ");
    sql.append(table);
    sql.append(" WHERE ");
    sql.append(where_clause.expr.as_str());
    sql.append(" LIMIT 1");
    Statement { sql, params: where_clause.params }
}

/// The statement that updates the rows of `table` matching the clause.
///
/// Bind order: the SET values come first, in `.set()` call order, then the
/// WHERE clause values, matching `UPDATE t SET a = ?, b = ? WHERE c = ?`.
pub fn update_statement(table: &str, set: UpdateSet, where_clause: WhereClause) -> (res: Statement)
    ensures
        res.sql@ == update_text(table@, set.assignments@, where_clause.expr@),
        res.params@ == assignment_values(set.assignments@) + where_clause.params@,
        res.params@.len() == set.assignments@.len() + where_clause.params@.len(),
        forall|k: int|
            0 <= k < set.assignments@.len() ==> res.params@[k] == (
            #[trigger] set.assignments@[k]).1,
        forall|j: int|
            0 <= j < where_clause.params@.len() ==> res.params@[set.assignments@.len() + j]
                == #[trigger] where_clause.params@[j],
        res.sql@ == "UPDATE "@ + table@ + " SET "@ + join(
            set.assignments@.map_values(|p: (String, SqlValue)| p.0@ + " = ?"@),
            ", "@,
        ) + " WHERE "@ + where_clause.expr@,
{
    let ghost all = set.assignments@;
    let mut rest = set.assignments;
    let mut parts: Vec<String> = Vec::new();
    let mut params: Vec<SqlValue> = Vec::new();
    let mut k: usize = 0;
    let n = rest.len();
    assert(all.len() == n);
    while rest.len() > 0
        invariant
            k + rest@.len() == all.len(),
            all.len() <= usize::MAX,
            rest@ == all.skip(k as int),
            parts@.len() == k,
            forall|j: int| 0 <= j < k ==> #[trigger] parts@[j]@ == all[j].0@ + " = ?"@,
            params@ == assignment_values(all.take(k as int)),
        decreases rest.len(),
    {
        let (col, val) = rest.remove(0);
        proof {
            assert(all.take(k + 1) =~= all.take(k as int).push(all[k as int]));
            assert(all[k as int] == (col, val));
            assert(rest@ =~= all.skip(k + 1));
        }
        let mut p = col;
        p.append(" = ?");
        parts.push(p);
        params.push(val);
        proof {
            assert(params@ =~= assignment_values(all.take(k + 1)));
        }
        k = k + 1;
    }
    proof {
        assert(all.take(k as int) =~= all);
        assert(texts(parts@) =~= assignment_texts(all));
    }
    let mut where_params = where_clause.params;
    params.append(&mut where_params);
    let sets = join_strings(&parts, ", ");
    let mut sql = String::from_str("UPDATE ");
    sql.append(table);
    sql.append(" SET ");
    sql.append(sets.as_str());
    sql.append(" WHERE ");
    sql.append(where_clause.expr.as_str());
    Statement { sql, params }
}

/// The statement that deletes the rows of `table` matching the clause.
pub fn delete_statement(table: &str, where_clause: WhereClause) -> (res: Statement)
    ensures
        res.sql@ == delete_text(table@, where_clause.expr@),
        res.params@ == where_clause.params@,
        res.sql@ == "DELETE FROM "@ + table@ + " WHERE "@ + where_clause.expr@,
{
    let mut sql = String::from_str("DELETE FROM ");
    sql.append(table);
    sql.append(" WHERE ");
    sql.append(where_clause.expr.as_str());
    Statement { sql, params: where_clause.params }
}

/// The statement that counts the rows of `table`, scoped to the clause when
/// there is one.
pub fn count_statement(table: &str, where_clause: Option<WhereClause>) -> (res: Statement)
    ensures
        res.sql@ == count_text(table@, where_clause),
        res.params@ == where_params(where_clause),
        where_clause matches Some(w) ==> res.sql@ == "SELECT COUNT(*) FROM "@ + table@
            + " WHERE "@ + w.expr@ && res.params@ == w.params@,
        where_clause is None ==> res.sql@ == "SELECT COUNT(*) FROM "@ + table@
            && res.params@.len() == 0,
{
    let (cond, params) = where_parts(where_clause);
    let mut sql = String::from_str("SELECT COUNT(*) FROM ");
    sql.append(table);
    sql.append(cond.as_str());
    Statement { sql, params }
}

} // verus!
