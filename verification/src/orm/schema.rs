//! # schema
//!
//! Column-level metadata. [`Column`] is a plain data struct built with a
//! fluent builder API; it renders itself as a DDL fragment with
//! [`Column::to_ddl`], which keeps all SQL generation co-located with the
//! type rather than scattered across the statement builders.

use vstd::prelude::*;
use super::types::Sqlite3Type;

verus! {

/// Metadata for a single database column.
///
/// Constructed with [`Column::new`] and refined with builder methods.
#[derive(Debug, Clone)]
pub struct Column {
    /// Column name as it appears in DDL and queries.
    pub name: &'static str,
    /// SQLite type affinity.
    pub kind: Sqlite3Type,
    /// Whether this column is part of the PRIMARY KEY.
    pub primary_key: bool,
    /// Whether a NOT NULL constraint is emitted.
    pub not_null: bool,
    /// Whether a UNIQUE constraint is emitted.
    pub unique: bool,
    /// Optional literal DEFAULT expression (e.g. `"0"`, `"'guest'"`).
    pub default: Option<String>,
}

impl Column {
    /// The DDL fragment of this column inside CREATE TABLE: its name, its
    /// affinity, then ` PRIMARY KEY`, ` NOT NULL`, ` UNIQUE` and
    /// ` DEFAULT <expr>` for each constraint that is set, in that order.
    pub open spec fn ddl(self) -> Seq<char> {
        self.name@ + " "@ + self.kind.sql_name() + (if self.primary_key {
            " PRIMARY KEY"@
        } else {
            Seq::empty()
        }) + (if self.not_null {
            " NOT NULL"@
        } else {
            Seq::empty()
        }) + (if self.unique {
            " UNIQUE"@
        } else {
            Seq::empty()
        }) + (match self.default {
            Some(d) => " DEFAULT "@ + d@,
            None => Seq::empty(),
        })
    }

    /// Where ` PRIMARY KEY` goes in the DDL: after the name, a space and the
    /// affinity.
    pub open spec fn primary_key_position(self) -> int {
        (self.name@.len() + 1 + self.kind.sql_name().len()) as int
    }

    /// Where ` NOT NULL` goes in the DDL: after the ` PRIMARY KEY` part (12
    /// characters when present).
    pub open spec fn not_null_position(self) -> int {
        self.primary_key_position() + if self.primary_key {
            12int
        } else {
            0int
        }
    }

    /// Where ` UNIQUE` goes in the DDL: after the ` NOT NULL` part (9
    /// characters when present).
    pub open spec fn unique_position(self) -> int {
        self.not_null_position() + if self.not_null {
            9int
        } else {
            0int
        }
    }

    /// Create a column with no constraints. Use builder methods to add them.
    pub fn new(name: &'static str, kind: Sqlite3Type) -> (res: Self)
        ensures
            res.name == name,
            res.kind == kind,
            !res.primary_key,
            !res.not_null,
            !res.unique,
            res.default is None,
    {
        Column { name, kind, primary_key: false, not_null: false, unique: false, default: None }
    }

    /// Mark this column as PRIMARY KEY.
    pub fn primary_key(self) -> (res: Self)
        ensures
            res == (Column { primary_key: true, ..self }),
    {
        let mut c = self;
        c.primary_key = true;
        c
    }

    /// Add a NOT NULL constraint.
    pub fn not_null(self) -> (res: Self)
        ensures
            res == (Column { not_null: true, ..self }),
    {
        let mut c = self;
        c.not_null = true;
        c
    }

    /// Add a UNIQUE constraint.
    pub fn unique(self) -> (res: Self)
        ensures
            res == (Column { unique: true, ..self }),
    {
        let mut c = self;
        c.unique = true;
        c
    }

    /// Set a DEFAULT expression. The value is inserted verbatim into DDL,
    /// so string literals must be quoted: `.default("'guest'")`.
    pub fn default(self, v: &str) -> (res: Self)
        ensures
            res.name == self.name,
            res.kind == self.kind,
            res.primary_key == self.primary_key,
            res.not_null == self.not_null,
            res.unique == self.unique,
            res.default matches Some(d) && d@ == v@,
    {
        let mut c = self;
        c.default = Some(String::from_str(v));
        c
    }

    /// Render this column as a DDL fragment for use inside CREATE TABLE.
    ///
    /// Example output: `"email TEXT NOT NULL UNIQUE"`
    pub fn to_ddl(&self) -> (res: String)
        ensures
            res@ == self.ddl(),
    {
        let mut s = String::from_str(self.name);
        s.append(" ");
        let kind = self.kind.to_string();
        s.append(kind.as_str());
        if self.primary_key {
            s.append(" PRIMARY KEY");
        }
        if self.not_null {
            s.append(" NOT NULL");
        }
        if self.unique {
            s.append(" UNIQUE");
        }
        match &self.default {
            Some(d) => {
                s.append(" DEFAULT ");
                s.append(d.as_str());
            },
            None => {},
        }
        proof {
            assert(s@ =~= self.ddl());
        }
        s
    }
}

/// `s` with `x` inserted at position `at`.
pub open spec fn insert_at(s: Seq<char>, at: int, x: Seq<char>) -> Seq<char> {
    s.take(at) + x + s.skip(at)
}

/// The parts of a column's DDL after its name, a space and its affinity.
spec fn pk_part(c: Column) -> Seq<char> {
    if c.primary_key {
        " PRIMARY KEY"@
    } else {
        Seq::empty()
    }
}

spec fn nn_part(c: Column) -> Seq<char> {
    if c.not_null {
        " NOT NULL"@
    } else {
        Seq::empty()
    }
}

spec fn uq_part(c: Column) -> Seq<char> {
    if c.unique {
        " UNIQUE"@
    } else {
        Seq::empty()
    }
}

spec fn df_part(c: Column) -> Seq<char> {
    match c.default {
        Some(x) => " DEFAULT "@ + x@,
        None => Seq::empty(),
    }
}

spec fn head_part(c: Column) -> Seq<char> {
    c.name@ + " "@ + c.kind.sql_name()
}

proof fn lemma_ddl_parts(c: Column)
    ensures
        c.ddl() == head_part(c) + pk_part(c) + nn_part(c) + uq_part(c) + df_part(c),
        head_part(c).len() == c.primary_key_position(),
        (head_part(c) + pk_part(c)).len() == c.not_null_position(),
        (head_part(c) + pk_part(c) + nn_part(c)).len() == c.unique_position(),
{
    reveal_strlit(" PRIMARY KEY");
    reveal_strlit(" NOT NULL");
    reveal_strlit(" ");
}

/// A column without constraints renders as its name, a space and its
/// affinity.
pub proof fn lemma_ddl_without_constraints(c: Column)
    ensures
        (Column { primary_key: false, not_null: false, unique: false, default: None, ..c }).ddl()
            == c.name@ + " "@ + c.kind.sql_name(),
{
    let b = Column { primary_key: false, not_null: false, unique: false, default: None, ..c };
    lemma_ddl_parts(b);
    assert(b.ddl() =~= head_part(b));
}

/// Setting PRIMARY KEY inserts ` PRIMARY KEY` right after the name and
/// affinity, whatever the other constraints are.
pub proof fn lemma_ddl_primary_key(c: Column)
    ensures
        (Column { primary_key: true, ..c }).ddl() == insert_at(
            (Column { primary_key: false, ..c }).ddl(),
            c.primary_key_position(),
            " PRIMARY KEY"@,
        ),
{
    let on = Column { primary_key: true, ..c };
    let off = Column { primary_key: false, ..c };
    lemma_ddl_parts(on);
    lemma_ddl_parts(off);
    let h = head_part(c);
    let rest = nn_part(c) + uq_part(c) + df_part(c);
    assert(off.ddl() =~= h + rest);
    assert(off.ddl().take(h.len() as int) =~= h);
    assert(off.ddl().skip(h.len() as int) =~= rest);
    assert(on.ddl() =~= h + " PRIMARY KEY"@ + rest);
}

/// Setting NOT NULL inserts ` NOT NULL` right after the PRIMARY KEY part,
/// whatever the other constraints are.
pub proof fn lemma_ddl_not_null(c: Column)
    ensures
        (Column { not_null: true, ..c }).ddl() == insert_at(
            (Column { not_null: false, ..c }).ddl(),
            c.not_null_position(),
            " NOT NULL"@,
        ),
{
    let on = Column { not_null: true, ..c };
    let off = Column { not_null: false, ..c };
    lemma_ddl_parts(on);
    lemma_ddl_parts(off);
    lemma_ddl_parts(c);
    let h = head_part(c) + pk_part(c);
    let rest = uq_part(c) + df_part(c);
    assert(off.ddl() =~= h + rest);
    assert(off.ddl().take(h.len() as int) =~= h);
    assert(off.ddl().skip(h.len() as int) =~= rest);
    assert(on.ddl() =~= h + " NOT NULL"@ + rest);
}

/// Setting UNIQUE inserts ` UNIQUE` right after the NOT NULL part, whatever
/// the other constraints are.
pub proof fn lemma_ddl_unique(c: Column)
    ensures
        (Column { unique: true, ..c }).ddl() == insert_at(
            (Column { unique: false, ..c }).ddl(),
            c.unique_position(),
            " UNIQUE"@,
        ),
{
    let on = Column { unique: true, ..c };
    let off = Column { unique: false, ..c };
    lemma_ddl_parts(on);
    lemma_ddl_parts(off);
    lemma_ddl_parts(c);
    let h = head_part(c) + pk_part(c) + nn_part(c);
    let rest = df_part(c);
    assert(off.ddl() =~= h + rest);
    assert(off.ddl().take(h.len() as int) =~= h);
    assert(off.ddl().skip(h.len() as int) =~= rest);
    assert(on.ddl() =~= h + " UNIQUE"@ + rest);
}

/// A DEFAULT expression `d` appends ` DEFAULT d` at the end of the DDL.
pub proof fn lemma_ddl_default(c: Column, d: String)
    ensures
        (Column { default: Some(d), ..c }).ddl() == (Column { default: None, ..c }).ddl()
            + " DEFAULT "@ + d@,
{
    let on = Column { default: Some(d), ..c };
    let off = Column { default: None, ..c };
    lemma_ddl_parts(on);
    lemma_ddl_parts(off);
    assert(on.ddl() =~= off.ddl() + " DEFAULT "@ + d@);
}

/// One builder call on a column: [`Column::primary_key`],
/// [`Column::not_null`], [`Column::unique`], or [`Column::default`] with the
/// given expression.
pub enum ColumnBuilder {
    PrimaryKey,
    NotNull,
    Unique,
    Default(String),
}

/// The column after the builder call `b`, as the builders' contracts give it.
pub open spec fn build_step(c: Column, b: ColumnBuilder) -> Column {
    match b {
        ColumnBuilder::PrimaryKey => Column { primary_key: true, ..c },
        ColumnBuilder::NotNull => Column { not_null: true, ..c },
        ColumnBuilder::Unique => Column { unique: true, ..c },
        ColumnBuilder::Default(d) => Column { default: Some(d), ..c },
    }
}

/// The column after the builder calls `steps`, first to last.
pub open spec fn build(c: Column, steps: Seq<ColumnBuilder>) -> Column
    decreases steps.len(),
{
    if steps.len() == 0 {
        c
    } else {
        build_step(build(c, steps.drop_last()), steps.last())
    }
}

/// The text of a DEFAULT expression, if any.
pub open spec fn default_text(d: Option<String>) -> Option<Seq<char>> {
    match d {
        Some(s) => Some(s@),
        None => None,
    }
}

/// The DEFAULT expression that a column with DEFAULT expression `init` has
/// after the builder calls `steps`: that of the last `Default` call, if any.
pub open spec fn last_default(init: Option<Seq<char>>, steps: Seq<ColumnBuilder>) -> Option<
    Seq<char>,
>
    decreases steps.len(),
{
    if steps.len() == 0 {
        init
    } else {
        match steps.last() {
            ColumnBuilder::Default(d) => Some(d@),
            _ => last_default(init, steps.drop_last()),
        }
    }
}

proof fn lemma_build_fields(c: Column, steps: Seq<ColumnBuilder>)
    ensures
        build(c, steps).name == c.name,
        build(c, steps).kind == c.kind,
        build(c, steps).primary_key == (c.primary_key || steps.contains(ColumnBuilder::PrimaryKey)),
        build(c, steps).not_null == (c.not_null || steps.contains(ColumnBuilder::NotNull)),
        build(c, steps).unique == (c.unique || steps.contains(ColumnBuilder::Unique)),
        default_text(build(c, steps).default) == last_default(default_text(c.default), steps),
    decreases steps.len(),
{
    if steps.len() > 0 {
        let rest = steps.drop_last();
        lemma_build_fields(c, rest);
        let b = steps.last();
        assert(steps == rest.push(b));
        assert forall|x: ColumnBuilder| steps.contains(x) <==> (rest.contains(x) || x == b) by {
            if steps.contains(x) {
                let i = choose|i: int| 0 <= i < steps.len() && steps[i] == x;
                if i < rest.len() {
                    assert(rest[i] == x);
                }
            }
            if rest.contains(x) {
                let i = choose|i: int| 0 <= i < rest.len() && rest[i] == x;
                assert(steps[i] == x);
            }
            if x == b {
                assert(steps[steps.len() - 1] == x);
            }
        }
    }
}

/// The order of builder calls does not matter, nor does repeating a flag:
/// two columns built from the same column by calls that include the same
/// flag builders (`primary_key`, `not_null`, `unique`) and end with the same
/// DEFAULT expression render the same DDL, whose constraints always come in
/// the order PRIMARY KEY, NOT NULL, UNIQUE, DEFAULT.
pub proof fn lemma_builder_order_irrelevant(
    c: Column,
    s1: Seq<ColumnBuilder>,
    s2: Seq<ColumnBuilder>,
)
    requires
        s1.contains(ColumnBuilder::PrimaryKey) == s2.contains(ColumnBuilder::PrimaryKey),
        s1.contains(ColumnBuilder::NotNull) == s2.contains(ColumnBuilder::NotNull),
        s1.contains(ColumnBuilder::Unique) == s2.contains(ColumnBuilder::Unique),
        last_default(default_text(c.default), s1) == last_default(default_text(c.default), s2),
    ensures
        build(c, s1).ddl() == build(c, s2).ddl(),
{
    lemma_build_fields(c, s1);
    lemma_build_fields(c, s2);
}

/// Holds of the columns whose PRIMARY KEY flag is `want`.
pub open spec fn pk_flag_is(want: bool) -> spec_fn(Column) -> bool {
    |c: Column| c.primary_key == want
}

/// The columns of `columns` whose PRIMARY KEY flag is `want`, in their
/// original order.
fn columns_with_pk_flag(columns: Vec<Column>, want: bool) -> (res: Vec<Column>)
    ensures
        res@ == columns@.filter(pk_flag_is(want)),
        forall|i: int| 0 <= i < res@.len() ==> (#[trigger] res@[i]).primary_key == want,
        forall|i: int|
            0 <= i < columns@.len() && columns@[i].primary_key == want ==> res@.contains(
                #[trigger] columns@[i],
            ),
{
    let ghost all = columns@;
    let ghost pred = pk_flag_is(want);
    let mut rest = columns;
    let mut res: Vec<Column> = Vec::new();
    let mut k: usize = 0;
    let n = rest.len();
    assert(all.len() == n);
    while rest.len() > 0
        invariant
            k <= all.len(),
            k + rest.len() == all.len(),
            all.len() <= usize::MAX,
            pred == pk_flag_is(want),
            rest@ == all.skip(k as int),
            res@ == all.take(k as int).filter(pred),
        decreases rest.len(),
    {
        let c = rest.remove(0);
        proof {
            assert(all.take(k + 1).drop_last() =~= all.take(k as int));
            assert(rest@ =~= all.skip(k + 1));
        }
        let ghost before = res@;
        if c.primary_key == want {
            res.push(c);
        }
        proof {
            reveal(Seq::filter);
            let t = all.take(k + 1);
            assert(t.last() == c);
            if pred(c) {
                assert(t.filter(pred) == before.push(c));
            } else {
                assert(t.filter(pred) == before);
            }
        }
        k = k + 1;
    }
    proof {
        assert(all.take(k as int) =~= all);
        assert forall|i: int| 0 <= i < res@.len() implies (#[trigger] res@[i]).primary_key
            == want by {
            all.lemma_filter_pred(pred, i);
        }
        assert forall|i: int|
            0 <= i < all.len() && all[i].primary_key == want implies res@.contains(
                #[trigger] all[i],
            ) by {
            all.lemma_filter_contains(pred, i);
        }
    }
    res
}

/// All columns that are not part of the primary key, in their original order.
///
/// INSERT statements are built from these so that they never bind an auto-id.
pub fn non_pk_columns(columns: Vec<Column>) -> (res: Vec<Column>)
    ensures
        res@ == columns@.filter(pk_flag_is(false)),
        res@ == columns@.filter(|c: Column| !c.primary_key),
        forall|i: int| 0 <= i < res@.len() ==> !(#[trigger] res@[i]).primary_key,
        forall|i: int|
            0 <= i < columns@.len() && !columns@[i].primary_key ==> res@.contains(
                #[trigger] columns@[i],
            ),
{
    proof {
        assert(pk_flag_is(false) =~= (|c: Column| !c.primary_key));
    }
    columns_with_pk_flag(columns, false)
}

/// The primary-key columns, in their original order.
///
/// An upsert binds these so that a row whose key already exists replaces it.
pub fn primary_key_columns(columns: Vec<Column>) -> (res: Vec<Column>)
    ensures
        res@ == columns@.filter(pk_flag_is(true)),
        res@ == columns@.filter(|c: Column| c.primary_key),
        forall|i: int| 0 <= i < res@.len() ==> (#[trigger] res@[i]).primary_key,
        forall|i: int|
            0 <= i < columns@.len() && columns@[i].primary_key ==> res@.contains(
                #[trigger] columns@[i],
            ),
{
    proof {
        assert(pk_flag_is(true) =~= (|c: Column| c.primary_key));
    }
    columns_with_pk_flag(columns, true)
}

} // verus!
