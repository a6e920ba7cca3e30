//! # ddl
//!
//! Data Definition Language statements: CREATE TABLE, DROP TABLE and the
//! statements that carry out each [`AlterOp`].
//!
//! Column DDL is derived entirely from the schema's column list, so the
//! database schema stays in sync with the Rust type definition.

use vstd::prelude::*;
use super::alter::AlterOp;
use super::schema::Column;
use super::text::{join, join_strings, str_eq, texts};

verus! {

/// The DDL fragment of each column, in order.
pub open spec fn column_ddls(cols: Seq<Column>) -> Seq<Seq<char>> {
    cols.map_values(|c: Column| c.ddl())
}

/// The name of each column, in order.
pub open spec fn column_names(cols: Seq<Column>) -> Seq<Seq<char>> {
    cols.map_values(|c: Column| c.name@)
}

/// `CREATE TABLE IF NOT EXISTS <table> (<ddl of each column, joined by ", ">)`
pub open spec fn create_table_text(table: Seq<char>, cols: Seq<Column>) -> Seq<char> {
    "CREATE TABLE IF NOT EXISTS "@ + table + " ("@ + join(column_ddls(cols), ", "@) + ")"@
}

/// `DROP TABLE IF EXISTS <table>`
pub open spec fn drop_table_text(table: Seq<char>) -> Seq<char> {
    "DROP TABLE IF EXISTS "@ + table
}

/// The DDL fragments of `columns`, in order.
pub fn ddl_list(columns: &[Column]) -> (res: Vec<String>)
    ensures
        texts(res@) == column_ddls(columns@),
{
    let mut res: Vec<String> = Vec::new();
    let mut i: usize = 0;
    while i < columns.len()
        invariant
            i <= columns@.len(),
            res@.len() == i,
            forall|j: int| 0 <= j < i ==> #[trigger] res@[j]@ == columns@[j].ddl(),
        decreases columns.len() - i,
    {
        let d = columns[i].to_ddl();
        res.push(d);
        i = i + 1;
    }
    proof {
        assert(texts(res@) =~= column_ddls(columns@));
    }
    res
}

/// The names of `columns`, in order.
pub fn name_list(columns: &[Column]) -> (res: Vec<String>)
    ensures
        texts(res@) == column_names(columns@),
{
    let mut res: Vec<String> = Vec::new();
    let mut i: usize = 0;
    while i < columns.len()
        invariant
            i <= columns@.len(),
            res@.len() == i,
            forall|j: int| 0 <= j < i ==> #[trigger] res@[j]@ == columns@[j].name@,
        decreases columns.len() - i,
    {
        res.push(String::from_str(columns[i].name));
        i = i + 1;
    }
    proof {
        assert(texts(res@) =~= column_names(columns@));
    }
    res
}

/// The statement that creates the table `table` with `columns` if it does
/// not already exist.
pub fn create_table_sql(table: &str, columns: &[Column]) -> (res: String)
    ensures
        res@ == create_table_text(table@, columns@),
        res@ == "CREATE TABLE IF NOT EXISTS "@ + table@ + " ("@ + join(
            columns@.map_values(|c: Column| c.ddl()),
            ", "@,
        ) + ")"@,
{
    proof {
        assert(column_ddls(columns@) =~= columns@.map_values(|c: Column| c.ddl()));
    }
    let defs = ddl_list(columns);
    let body = join_strings(&defs, ", ");
    let mut s = String::from_str("CREATE TABLE IF NOT EXISTS ");
    s.append(table);
    s.append(" (");
    s.append(body.as_str());
    s.append(")");
    s
}

/// The statement that drops the table `table` if it exists.
pub fn drop_table_sql(table: &str) -> (res: String)
    ensures
        res@ == drop_table_text(table@),
        res@ == "DROP TABLE IF EXISTS "@ + table@,
{
    let mut s = String::from_str("DROP TABLE IF EXISTS ");
    s.append(table);
    s
}

/// What carrying out one [`AlterOp`] takes.
pub enum AlterStep {
    /// One native statement, run on its own.
    Execute(String),
    /// Statements that must run in order inside a single transaction.
    Atomic(Vec<String>),
}

/// `ALTER TABLE <table> ADD COLUMN <ddl of col>`
pub open spec fn add_column_text(table: Seq<char>, col: Column) -> Seq<char> {
    "ALTER TABLE "@ + table + " ADD COLUMN "@ + col.ddl()
}

/// `ALTER TABLE <table> RENAME COLUMN <from> TO <to>`
pub open spec fn rename_column_text(table: Seq<char>, from: Seq<char>, to: Seq<char>) -> Seq<char> {
    "ALTER TABLE "@ + table + " RENAME COLUMN "@ + from + " TO "@ + to
}

/// `ALTER TABLE <table> RENAME TO <new_name>`
pub open spec fn rename_table_text(table: Seq<char>, new_name: Seq<char>) -> Seq<char> {
    "ALTER TABLE "@ + table + " RENAME TO "@ + new_name
}

/// Whether some column of `cols` is named `name`.
pub open spec fn has_column(cols: Seq<Column>, name: Seq<char>) -> bool {
    exists|i: int| 0 <= i < cols.len() && #[trigger] cols[i].name@ == name
}

/// The columns of `cols` not named `name`, in their original order.
pub open spec fn surviving(cols: Seq<Column>, name: Seq<char>) -> Seq<Column> {
    cols.filter(not_named(name))
}

/// Holds of the columns whose name is not `name`.
pub open spec fn not_named(name: Seq<char>) -> spec_fn(Column) -> bool {
    |c: Column| c.name@ != name
}

/// The name of the scratch table used while dropping a column of `table`.
pub open spec fn temp_table(table: Seq<char>) -> Seq<char> {
    "__temp_"@ + table
}

/// The four statements that drop the column `name` of `table`: create the
/// scratch table with the surviving columns, copy every row's surviving
/// columns into it, drop the original table, and rename the scratch table to
/// the original name.
pub open spec fn drop_column_texts(table: Seq<char>, cols: Seq<Column>, name: Seq<char>) -> Seq<Seq<char>> {
    let temp = temp_table(table);
    let keep = surviving(cols, name);
    let csv = join(column_names(keep), ", "@);
    seq![
        "CREATE TABLE "@ + temp + " ("@ + join(column_ddls(keep), ", "@) + ")"@,
        "INSERT INTO "@ + temp + " ("@ + csv + ") SELECT "@ + csv + " FROM "@ + table,
        "DROP TABLE "@ + table,
        "ALTER TABLE "@ + temp + " RENAME TO "@ + table,
    ]
}

/// The message of the error that refuses to drop a column that is not in the
/// schema.
pub open spec fn missing_column_message(table: Seq<char>, name: Seq<char>) -> Seq<char> {
    "column '"@ + name + "' not found in schema for table '"@ + table + "'"@
}

/// The four statements that rebuild `table` with exactly the columns `keep`:
/// create `__temp_<table>` with their DDL, copy their values from every row,
/// drop `table`, and rename `__temp_<table>` to `table`.
pub open spec fn kept_column_statements(table: Seq<char>, keep: Seq<Column>) -> Seq<Seq<char>> {
    seq![
        "CREATE TABLE __temp_"@ + table + " ("@ + join(
            keep.map_values(|c: Column| c.ddl()),
            ", "@,
        ) + ")"@,
        "INSERT INTO __temp_"@ + table + " ("@ + join(keep.map_values(|c: Column| c.name@), ", "@)
            + ") SELECT "@ + join(keep.map_values(|c: Column| c.name@), ", "@) + " FROM "@ + table,
        "DROP TABLE "@ + table,
        "ALTER TABLE __temp_"@ + table + " RENAME TO "@ + table,
    ]
}

/// Dropping the column `name` rebuilds the table with exactly the columns
/// not named `name`, kept in schema order (so that positions read by index
/// still follow the schema), copies every row's values of those columns, and
/// renames the rebuilt table back; the refusal message names the column and
/// the table.
pub proof fn lemma_drop_column_texts(table: Seq<char>, cols: Seq<Column>, name: Seq<char>)
    ensures
        drop_column_texts(table, cols, name) == kept_column_statements(
            table,
            cols.filter(|c: Column| c.name@ != name),
        ),
        missing_column_message(table, name) == "column '"@ + name
            + "' not found in schema for table '"@ + table + "'"@,
{
    reveal_strlit("__temp_");
    reveal_strlit("CREATE TABLE ");
    reveal_strlit("CREATE TABLE __temp_");
    reveal_strlit("INSERT INTO ");
    reveal_strlit("INSERT INTO __temp_");
    reveal_strlit("ALTER TABLE ");
    reveal_strlit("ALTER TABLE __temp_");
    assert(not_named(name) =~= (|c: Column| c.name@ != name));
    let keep = cols.filter(|c: Column| c.name@ != name);
    assert(surviving(cols, name) == keep);
    assert(column_ddls(keep) =~= keep.map_values(|c: Column| c.ddl()));
    assert(column_names(keep) =~= keep.map_values(|c: Column| c.name@));
    assert("CREATE TABLE "@ + temp_table(table) =~= "CREATE TABLE __temp_"@ + table);
    assert("INSERT INTO "@ + temp_table(table) =~= "INSERT INTO __temp_"@ + table);
    assert("ALTER TABLE "@ + temp_table(table) =~= "ALTER TABLE __temp_"@ + table);
    assert(drop_column_texts(table, cols, name) =~= kept_column_statements(table, keep));
}

proof fn lemma_drop_column_texts_surviving(table: Seq<char>, cols: Seq<Column>, name: Seq<char>)
    ensures
        drop_column_texts(table, cols, name) == kept_column_statements(
            table,
            surviving(cols, name),
        ),
{
    lemma_drop_column_texts(table, cols, name);
    assert(not_named(name) =~= (|c: Column| c.name@ != name));
}

/// Each native alteration is one statement on its own:
/// `ALTER TABLE <table> ADD COLUMN <ddl>`, `ALTER TABLE <table> RENAME COLUMN
/// <from> TO <to>` or `ALTER TABLE <table> RENAME TO <new_name>`; dropping a
/// column is refused exactly when no column has that name, and is otherwise
/// the four rebuilding statements, run in one transaction.
pub proof fn lemma_planned_step_texts(table: Seq<char>, cols: Seq<Column>, op: AlterOp)
    ensures
        op matches AlterOp::AddColumn(col) ==> planned_step(table, cols, op) == Ok::<
            (bool, Seq<Seq<char>>),
            Seq<char>,
        >((false, seq!["ALTER TABLE "@ + table + " ADD COLUMN "@ + col.ddl()])),
        op matches AlterOp::RenameColumn { from, to } ==> planned_step(table, cols, op) == Ok::<
            (bool, Seq<Seq<char>>),
            Seq<char>,
        >((false, seq!["ALTER TABLE "@ + table + " RENAME COLUMN "@ + from@ + " TO "@ + to@])),
        op matches AlterOp::RenameTable(new_name) ==> planned_step(table, cols, op) == Ok::<
            (bool, Seq<Seq<char>>),
            Seq<char>,
        >((false, seq!["ALTER TABLE "@ + table + " RENAME TO "@ + new_name@])),
        op matches AlterOp::DropColumn(name) ==> (planned_step(table, cols, op) is Ok <==> (exists|
            i: int,
        | 0 <= i < cols.len() && #[trigger] cols[i].name@ == name@)),
        op matches AlterOp::DropColumn(name) ==> (planned_step(table, cols, op) is Ok
            ==> planned_step(table, cols, op) == Ok::<(bool, Seq<Seq<char>>), Seq<char>>(
            (true, kept_column_statements(table, cols.filter(|c: Column| c.name@ != name@))),
        )),
{
    if let AlterOp::DropColumn(name) = op {
        lemma_drop_column_texts_surviving(table, cols, name@);
        assert(not_named(name@) =~= (|c: Column| c.name@ != name@));
        assert(surviving(cols, name@) == cols.filter(|c: Column| c.name@ != name@));
    }
}

proof fn lemma_surviving_step(cols: Seq<Column>, name: Seq<char>, i: int)
    requires
        0 <= i < cols.len(),
    ensures
        surviving(cols.take(i + 1), name) == if cols[i].name@ != name {
            surviving(cols.take(i), name).push(cols[i])
        } else {
            surviving(cols.take(i), name)
        },
{
    reveal(Seq::filter);
    assert(cols.take(i + 1).drop_last() =~= cols.take(i));
    assert(cols.take(i + 1).last() == cols[i]);
}

/// Dropping a column keeps exactly the columns with another name, in their
/// order; and the test that refuses a drop ("no column has that name") is the
/// same as "dropping would keep every column".
pub proof fn lemma_drop_column_keeps_the_rest(cols: Seq<Column>, name: Seq<char>)
    ensures
        forall|i: int|
            0 <= i < surviving(cols, name).len() ==> #[trigger] surviving(cols, name)[i].name@
                != name,
        forall|i: int|
            0 <= i < cols.len() && cols[i].name@ != name ==> surviving(cols, name).contains(
                #[trigger] cols[i],
            ),
        surviving(cols, name).len() == cols.len() <==> !has_column(cols, name),
    decreases cols.len(),
{
    let pred = not_named(name);
    assert forall|i: int| 0 <= i < surviving(cols, name).len() implies #[trigger] surviving(
        cols,
        name,
    )[i].name@ != name by {
        cols.lemma_filter_pred(pred, i);
    }
    assert forall|i: int| 0 <= i < cols.len() && cols[i].name@ != name implies surviving(
        cols,
        name,
    ).contains(#[trigger] cols[i]) by {
        cols.lemma_filter_contains(pred, i);
    }
    reveal(Seq::filter);
    if cols.len() > 0 {
        let rest = cols.drop_last();
        lemma_drop_column_keeps_the_rest(rest, name);
        rest.lemma_filter_len(pred);
        if has_column(rest, name) {
            let j = choose|j: int| 0 <= j < rest.len() && #[trigger] rest[j].name@ == name;
            assert(cols[j] == rest[j]);
        }
        if has_column(cols, name) {
            let j = choose|j: int| 0 <= j < cols.len() && #[trigger] cols[j].name@ == name;
            if j < rest.len() {
                assert(rest[j] == cols[j]);
            }
        }
    }
}

/// The statements that drop the column `name` of `table`, whose schema has
/// `columns`; an error message when no column has that name.
pub fn drop_column_statements(table: &str, columns: &[Column], name: &str) -> (res: Result<
    Vec<String>,
    String,
>)
    ensures
        if has_column(columns@, name@) {
            res matches Ok(v) && texts(v@) == drop_column_texts(table@, columns@, name@)
        } else {
            res matches Err(m) && m@ == missing_column_message(table@, name@)
        },
        (exists|i: int| 0 <= i < columns@.len() && #[trigger] columns@[i].name@ == name@) <==> res is Ok,
        res matches Ok(v) ==> texts(v@) == kept_column_statements(
            table@,
            columns@.filter(|c: Column| c.name@ != name@),
        ),
        res matches Err(m) ==> m@ == "column '"@ + name@ + "' not found in schema for table '"@
            + table@ + "'"@,
{
    proof {
        lemma_drop_column_texts_surviving(table@, columns@, name@);
        assert(not_named(name@) =~= (|c: Column| c.name@ != name@));
        assert(surviving(columns@, name@) == columns@.filter(|c: Column| c.name@ != name@));
    }
    let ghost cols = columns@;
    let mut found = false;
    let mut defs: Vec<String> = Vec::new();
    let mut names: Vec<String> = Vec::new();
    let mut i: usize = 0;
    while i < columns.len()
        invariant
            i <= cols.len(),
            cols == columns@,
            found == has_column(cols.take(i as int), name@),
            texts(defs@) == column_ddls(surviving(cols.take(i as int), name@)),
            texts(names@) == column_names(surviving(cols.take(i as int), name@)),
        decreases columns.len() - i,
    {
        let c = &columns[i];
        let same = str_eq(c.name, name);
        let ghost prev = surviving(cols.take(i as int), name@);
        proof {
            lemma_surviving_step(cols, name@, i as int);
        }
        if same {
            found = true;
            proof {
                assert(cols.take(i + 1)[i as int] == cols[i as int]);
            }
        } else {
            defs.push(c.to_ddl());
            names.push(String::from_str(c.name));
            proof {
                assert(column_ddls(prev.push(cols[i as int])) =~= column_ddls(prev).push(cols[i as int].ddl()));
                assert(column_names(prev.push(cols[i as int])) =~= column_names(prev).push(cols[i as int].name@));
                assert(texts(defs@) =~= column_ddls(prev).push(cols[i as int].ddl()));
                assert(texts(names@) =~= column_names(prev).push(cols[i as int].name@));
            }
        }
        proof {
            let t = cols.take(i + 1);
            if has_column(cols.take(i as int), name@) {
                let j = choose|j: int| 0 <= j < i && #[trigger] cols.take(i as int)[j].name@ == name@;
                assert(t[j] == cols.take(i as int)[j]);
            }
            if has_column(t, name@) {
                let j = choose|j: int| 0 <= j < t.len() && #[trigger] t[j].name@ == name@;
                if j < i {
                    assert(cols.take(i as int)[j] == t[j]);
                }
            }
        }
        i = i + 1;
    }
    proof {
        assert(cols.take(cols.len() as int) =~= cols);
    }
    if !found {
        let mut m = String::from_str("column '");
        m.append(name);
        m.append("' not found in schema for table '");
        m.append(table);
        m.append("'");
        return Err(m);
    }
    let defs_csv = join_strings(&defs, ", ");
    let names_csv = join_strings(&names, ", ");
    let mut temp = String::from_str("__temp_");
    temp.append(table);

    let mut create = String::from_str("CREATE TABLE ");
    create.append(temp.as_str());
    create.append(" (");
    create.append(defs_csv.as_str());
    create.append(")");

    let mut copy = String::from_str("INSERT INTO ");
    copy.append(temp.as_str());
    copy.append(" (");
    copy.append(names_csv.as_str());
    copy.append(") SELECT ");
    copy.append(names_csv.as_str());
    copy.append(" FROM ");
    copy.append(table);

    let mut drop = String::from_str("DROP TABLE ");
    drop.append(table);

    let mut rename = String::from_str("ALTER TABLE ");
    rename.append(temp.as_str());
    rename.append(" RENAME TO ");
    rename.append(table);

    let mut v: Vec<String> = Vec::new();
    v.push(create);
    v.push(copy);
    v.push(drop);
    v.push(rename);
    proof {
        assert(texts(v@) =~= drop_column_texts(table@, columns@, name@));
    }
    Ok(v)
}

/// What a step does, as `(atomic, statements)`: one statement run on its
/// own, or several run in order inside one transaction.
pub open spec fn step_view(step: AlterStep) -> (bool, Seq<Seq<char>>) {
    match step {
        AlterStep::Execute(sql) => (false, seq![sql@]),
        AlterStep::Atomic(v) => (true, texts(v@)),
    }
}

/// What carrying out `op` on `table`, whose schema has `cols`, takes: each
/// native operation is one statement on its own; `DropColumn` is the four
/// statements of [`drop_column_texts`] in one transaction, or, when no column
/// has that name, the error message [`missing_column_message`].
pub open spec fn planned_step(table: Seq<char>, cols: Seq<Column>, op: AlterOp) -> Result<
    (bool, Seq<Seq<char>>),
    Seq<char>,
> {
    match op {
        AlterOp::AddColumn(col) => Ok((false, seq![add_column_text(table, col)])),
        AlterOp::RenameColumn { from, to } => Ok(
            (false, seq![rename_column_text(table, from@, to@)]),
        ),
        AlterOp::RenameTable(new_name) => Ok((false, seq![rename_table_text(table, new_name@)])),
        AlterOp::DropColumn(name) => if has_column(cols, name@) {
            Ok((true, drop_column_texts(table, cols, name@)))
        } else {
            Err(missing_column_message(table, name@))
        },
    }
}

/// The step that carries out `op` on `table`, whose schema has `columns`.
///
/// Each native operation is one statement; `DropColumn` is the four
/// statements of [`drop_column_statements`], to be run in one transaction,
/// and is refused with an error message when no column has that name.
pub fn alter_step(table: &str, columns: &[Column], op: &AlterOp) -> (res: Result<AlterStep, String>)
    ensures
        match res {
            Ok(step) => planned_step(table@, columns@, *op) == Ok::<(bool, Seq<Seq<char>>), Seq<char>>(step_view(step)),
            Err(m) => planned_step(table@, columns@, *op) == Err::<(bool, Seq<Seq<char>>), Seq<char>>(m@),
        },
{
    match op {
        AlterOp::AddColumn(col) => {
            let mut s = String::from_str("ALTER TABLE ");
            s.append(table);
            s.append(" ADD COLUMN ");
            let d = col.to_ddl();
            s.append(d.as_str());
            Ok(AlterStep::Execute(s))
        },
        AlterOp::RenameColumn { from, to } => {
            let mut s = String::from_str("ALTER TABLE ");
            s.append(table);
            s.append(" RENAME COLUMN ");
            s.append(from.as_str());
            s.append(" TO ");
            s.append(to.as_str());
            Ok(AlterStep::Execute(s))
        },
        AlterOp::RenameTable(new_name) => {
            let mut s = String::from_str("ALTER TABLE ");
            s.append(table);
            s.append(" RENAME TO ");
            s.append(new_name.as_str());
            Ok(AlterStep::Execute(s))
        },
        AlterOp::DropColumn(name) => {
            match drop_column_statements(table, columns, name.as_str()) {
                Ok(v) => Ok(AlterStep::Atomic(v)),
                Err(m) => Err(m),
            }
        },
    }
}

/// The steps that carry out `ops` on `table`, whose schema has `columns`, in
/// order: the step of each operation up to the first one that is refused,
/// and the error message of that one, if any.
///
/// Running the steps in order and stopping at the first failure applies the
/// operations one after another; the steps already run are not undone.
pub fn alter_steps(table: &str, columns: &[Column], ops: &[AlterOp]) -> (res: (
    Vec<AlterStep>,
    Option<String>,
))
    ensures
        res.0@.len() <= ops@.len(),
        forall|i: int|
            0 <= i < res.0@.len() ==> planned_step(table@, columns@, ops@[i]) == Ok::<
                (bool, Seq<Seq<char>>),
                Seq<char>,
            >(step_view(#[trigger] res.0@[i])),
        match res.1 {
            None => res.0@.len() == ops@.len(),
            Some(m) => res.0@.len() < ops@.len() && planned_step(
                table@,
                columns@,
                ops@[res.0@.len() as int],
            ) == Err::<(bool, Seq<Seq<char>>), Seq<char>>(m@),
        },
{
    let mut steps: Vec<AlterStep> = Vec::new();
    let mut i: usize = 0;
    while i < ops.len()
        invariant
            i <= ops@.len(),
            steps@.len() == i,
            forall|j: int|
                0 <= j < i ==> planned_step(table@, columns@, ops@[j]) == Ok::<
                    (bool, Seq<Seq<char>>),
                    Seq<char>,
                >(step_view(#[trigger] steps@[j])),
        decreases ops.len() - i,
    {
        match alter_step(table, columns, &ops[i]) {
            Ok(step) => {
                steps.push(step);
            },
            Err(m) => {
                return (steps, Some(m));
            },
        }
        i = i + 1;
    }
    (steps, None)
}

} // verus!
