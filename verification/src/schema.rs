//! The database table that the password-reset migration creates, and what
//! running the migration forward and back does to a schema.

use vstd::prelude::*;

use crate::text::str_equal;

verus! {

/// The type of a column.
#[derive(Debug, Clone, Copy, PartialEq, Eq, Structural)]
pub enum ColumnKind {
    Uuid,
    Text,
    TimestampWithTimeZone,
}

/// What a foreign key does when the row it points to is deleted.
#[derive(Debug, Clone, Copy, PartialEq, Eq, Structural)]
pub enum OnDelete {
    Cascade,
}

/// A column of a table.
pub struct ColumnDef {
    pub name: &'static str,
    pub kind: ColumnKind,
    pub not_null: bool,
    pub primary_key: bool,
    pub unique: bool,
    /// Whether the column defaults to the current timestamp.
    pub defaults_to_now: bool,
}

/// A foreign key of a table.
pub struct ForeignKeyDef {
    pub name: &'static str,
    pub column: &'static str,
    pub target_table: &'static str,
    pub target_column: &'static str,
    pub on_delete: OnDelete,
}

/// A table, created only if it does not exist yet.
pub struct TableDef {
    pub name: &'static str,
    pub if_not_exists: bool,
    pub columns: Vec<ColumnDef>,
    pub foreign_keys: Vec<ForeignKeyDef>,
}

/// The column `name` of `kind`, not null, with no other constraint.
fn required_column(name: &'static str, kind: ColumnKind) -> (r: ColumnDef)
    ensures
        r.name == name,
        r.kind == kind,
        r.not_null && !r.primary_key && !r.unique && !r.defaults_to_now,
{
    ColumnDef { name, kind, not_null: true, primary_key: false, unique: false, defaults_to_now: false }
}

/// The name of the table that holds password-reset tokens.
pub open spec fn reset_token_table_name() -> Seq<char> {
    "password_reset_token"@
}

/// Whether `t` is the password-reset table: a token per row, unique, owned by
/// a user (rows go when the user goes), with its expiry and creation instants.
pub open spec fn is_reset_token_table(t: TableDef) -> bool {
    &&& t.name@ == reset_token_table_name()
    &&& t.columns.len() == 5
    &&& t.columns[0].name@ == "id"@ && t.columns[0].kind == ColumnKind::Uuid && t.columns[0].not_null
        && t.columns[0].primary_key && !t.columns[0].unique && !t.columns[0].defaults_to_now
    &&& t.columns[1].name@ == "user_id"@ && t.columns[1].kind == ColumnKind::Uuid && t.columns[1].not_null
        && !t.columns[1].primary_key && !t.columns[1].unique && !t.columns[1].defaults_to_now
    &&& t.columns[2].name@ == "token"@ && t.columns[2].kind == ColumnKind::Text && t.columns[2].not_null
        && !t.columns[2].primary_key && t.columns[2].unique && !t.columns[2].defaults_to_now
    &&& t.columns[3].name@ == "expires_at"@ && t.columns[3].kind == ColumnKind::TimestampWithTimeZone
        && t.columns[3].not_null && !t.columns[3].primary_key && !t.columns[3].unique
        && !t.columns[3].defaults_to_now
    &&& t.columns[4].name@ == "created_at"@ && t.columns[4].kind == ColumnKind::TimestampWithTimeZone
        && t.columns[4].not_null && !t.columns[4].primary_key && !t.columns[4].unique
        && t.columns[4].defaults_to_now
    &&& t.foreign_keys.len() == 1
    &&& t.foreign_keys[0].name@ == "fk_reset_token_user_id"@
    &&& t.foreign_keys[0].column@ == "user_id"@
    &&& t.foreign_keys[0].target_table@ == "user"@
    &&& t.foreign_keys[0].target_column@ == "id"@
    &&& t.foreign_keys[0].on_delete == OnDelete::Cascade
}

/// The table that the password-reset migration creates, only if it does not
/// exist yet.
pub fn password_reset_token_table() -> (r: TableDef)
    ensures
        r.if_not_exists,
        is_reset_token_table(r),
{
    let mut columns: Vec<ColumnDef> = Vec::new();
    columns.push(
        ColumnDef { name: "id", kind: ColumnKind::Uuid, not_null: true, primary_key: true, unique: false, defaults_to_now: false },
    );
    columns.push(required_column("user_id", ColumnKind::Uuid));
    columns.push(
        ColumnDef { name: "token", kind: ColumnKind::Text, not_null: true, primary_key: false, unique: true, defaults_to_now: false },
    );
    columns.push(required_column("expires_at", ColumnKind::TimestampWithTimeZone));
    columns.push(
        ColumnDef {
            name: "created_at",
            kind: ColumnKind::TimestampWithTimeZone,
            not_null: true,
            primary_key: false,
            unique: false,
            defaults_to_now: true,
        },
    );
    let mut foreign_keys: Vec<ForeignKeyDef> = Vec::new();
    foreign_keys.push(
        ForeignKeyDef {
            name: "fk_reset_token_user_id",
            column: "user_id",
            target_table: "user",
            target_column: "id",
            on_delete: OnDelete::Cascade,
        },
    );
    TableDef { name: "password_reset_token", if_not_exists: true, columns, foreign_keys }
}

/// The table that rolling the migration back drops.
pub fn dropped_table() -> (r: &'static str)
    ensures
        r@ == reset_token_table_name(),
{
    "password_reset_token"
}

/// Why a change to a schema was refused.
#[derive(Debug, Clone, Copy, PartialEq, Eq, Structural)]
pub enum SchemaError {
    /// A table of that name exists and the statement did not say `IF NOT EXISTS`.
    TableExists,
    /// No table of that name exists (a plain `DROP TABLE`).
    TableNotFound,
    /// A foreign key points at a table that does not exist.
    ReferencedTableNotFound,
}

/// The tables of a database, in the order in which they were created.
pub struct Schema {
    pub tables: Vec<TableDef>,
}

/// Whether `tables` holds a table named `name`.
pub open spec fn has_table(tables: Seq<TableDef>, name: Seq<char>) -> bool {
    exists|i: int| 0 <= i < tables.len() && #[trigger] tables[i].name@ == name
}

/// `tables` without the tables named `name`, the others kept in order.
pub open spec fn without_table(tables: Seq<TableDef>, name: Seq<char>) -> Seq<TableDef>
    decreases tables.len(),
{
    if tables.len() == 0 {
        tables
    } else {
        (if tables[0].name@ == name { Seq::empty() } else { seq![tables[0]] }) + without_table(
            tables.drop_first(),
            name,
        )
    }
}

/// Whether every table that a foreign key of `t` points at exists in
/// `tables` or is `t` itself.
pub open spec fn references_present(tables: Seq<TableDef>, t: TableDef) -> bool {
    forall|j: int|
        0 <= j < t.foreign_keys.len() ==> #[trigger] t.foreign_keys[j].target_table@ == t.name@
            || has_table(tables, t.foreign_keys[j].target_table@)
}

/// What creating `t` in a schema whose tables were `before` answers, and the
/// tables after it.
pub open spec fn create_outcome(
    before: Seq<TableDef>,
    t: TableDef,
    r: Result<(), SchemaError>,
    after: Seq<TableDef>,
) -> bool {
    if has_table(before, t.name@) {
        if t.if_not_exists {
            r is Ok && after == before
        } else {
            r == Err::<(), SchemaError>(SchemaError::TableExists) && after == before
        }
    } else if references_present(before, t) {
        r is Ok && after == before.push(t)
    } else {
        r == Err::<(), SchemaError>(SchemaError::ReferencedTableNotFound) && after == before
    }
}

/// What a plain `DROP TABLE name` (no `IF EXISTS`) answers, and the tables
/// after it.
pub open spec fn drop_outcome(
    before: Seq<TableDef>,
    name: Seq<char>,
    r: Result<(), SchemaError>,
    after: Seq<TableDef>,
) -> bool {
    if has_table(before, name) {
        r is Ok && after == without_table(before, name)
    } else {
        r == Err::<(), SchemaError>(SchemaError::TableNotFound) && after == before
    }
}

/// What running the migration forward answers, and the tables after it: an
/// existing password-reset table is left as it is; else the table is created
/// where the `user` table it points at exists.
pub open spec fn up_outcome(before: Seq<TableDef>, r: Result<(), SchemaError>, after: Seq<TableDef>) -> bool {
    if has_table(before, reset_token_table_name()) {
        r is Ok && after == before
    } else if has_table(before, "user"@) {
        &&& r is Ok
        &&& after.len() == before.len() + 1
        &&& after.drop_last() == before
        &&& is_reset_token_table(after.last())
    } else {
        r == Err::<(), SchemaError>(SchemaError::ReferencedTableNotFound) && after == before
    }
}

impl Schema {
    /// A schema with no tables.
    pub fn new() -> (r: Schema)
        ensures
            r.tables@ == Seq::<TableDef>::empty(),
    {
        Schema { tables: Vec::new() }
    }

    /// Whether a table named `name` exists.
    pub fn has_table(&self, name: &str) -> (r: bool)
        ensures
            r == has_table(self.tables@, name@),
    {
        let mut i: usize = 0;
        while i < self.tables.len()
            invariant
                i <= self.tables.len(),
                forall|j: int| 0 <= j < i ==> #[trigger] self.tables@[j].name@ != name@,
            decreases self.tables.len() - i,
        {
            if str_equal(self.tables[i].name, name) {
                return true;
            }
            i = i + 1;
        }
        false
    }

    /// Whether every table that a foreign key of `t` points at exists or is
    /// `t` itself.
    fn references_present(&self, t: &TableDef) -> (r: bool)
        ensures
            r == references_present(self.tables@, *t),
    {
        let mut j: usize = 0;
        while j < t.foreign_keys.len()
            invariant
                j <= t.foreign_keys.len(),
                forall|k: int|
                    0 <= k < j ==> #[trigger] t.foreign_keys[k].target_table@ == t.name@
                        || has_table(self.tables@, t.foreign_keys[k].target_table@),
            decreases t.foreign_keys.len() - j,
        {
            let target = t.foreign_keys[j].target_table;
            if !str_equal(target, t.name) && !self.has_table(target) {
                return false;
            }
            j = j + 1;
        }
        true
    }

    /// Creates the table `t`; where a table of its name exists, `IF NOT
    /// EXISTS` leaves the schema as it is and answers `Ok`, else the
    /// statement is refused. A foreign key to a missing table is refused.
    pub fn create_table(&mut self, t: TableDef) -> (r: Result<(), SchemaError>)
        ensures
            create_outcome(old(self).tables@, t, r, final(self).tables@),
    {
        if self.has_table(t.name) {
            if t.if_not_exists {
                Ok(())
            } else {
                Err(SchemaError::TableExists)
            }
        } else if self.references_present(&t) {
            self.tables.push(t);
            Ok(())
        } else {
            Err(SchemaError::ReferencedTableNotFound)
        }
    }

    /// Drops the table `name`, as a plain `DROP TABLE` does: where no such
    /// table exists the statement is refused and nothing changes.
    pub fn drop_table(&mut self, name: &str) -> (r: Result<(), SchemaError>)
        ensures
            drop_outcome(old(self).tables@, name@, r, final(self).tables@),
    {
        if !self.has_table(name) {
            return Err(SchemaError::TableNotFound);
        }
        let ghost before = self.tables@;
        let mut rest: Vec<TableDef> = Vec::new();
        std::mem::swap(&mut rest, &mut self.tables);
        while rest.len() > 0
            invariant
                self.tables@ + without_table(rest@, name@) == without_table(before, name@),
            decreases rest.len(),
        {
            let ghost rest_before = rest@;
            let t = rest.remove(0);
            assert(rest_before.drop_first() =~= rest@);
            let keep = !str_equal(t.name, name);
            let ghost kept_before = self.tables@;
            if keep {
                self.tables.push(t);
            }
            proof {
                if keep {
                    assert(kept_before.push(rest_before[0]) + without_table(rest@, name@) =~= kept_before
                        + (seq![rest_before[0]] + without_table(rest@, name@)));
                } else {
                    assert(Seq::<TableDef>::empty() + without_table(rest@, name@) =~= without_table(rest@, name@));
                }
            }
        }
        assert(self.tables@ + without_table(rest@, name@) =~= self.tables@);
        Ok(())
    }
}

/// The migration that adds the password-reset table.
pub struct Migration;

impl Migration {
    /// Runs the migration forward: creates the password-reset table if it
    /// does not exist yet.
    pub fn up(&self, schema: &mut Schema) -> (r: Result<(), SchemaError>)
        ensures
            up_outcome(old(schema).tables@, r, final(schema).tables@),
    {
        let t = password_reset_token_table();
        let ghost tt = t;
        let r = schema.create_table(t);
        proof {
            if !has_table(old(schema).tables@, reset_token_table_name()) && has_table(old(schema).tables@, "user"@) {
                assert(tt.foreign_keys[0].target_table@ == "user"@);
                assert(references_present(old(schema).tables@, tt));
                assert(schema.tables@.drop_last() =~= old(schema).tables@);
            }
            if !has_table(old(schema).tables@, reset_token_table_name()) && !has_table(old(schema).tables@, "user"@) {
                assert(tt.foreign_keys[0].target_table@ != tt.name@) by {
                    reveal_strlit("user");
                    reveal_strlit("password_reset_token");
                    assert("user"@.len() != "password_reset_token"@.len());
                }
                assert(!references_present(old(schema).tables@, tt));
            }
        }
        r
    }

    /// Rolls the migration back with a plain `DROP TABLE` of the
    /// password-reset table (no `IF EXISTS`): where the table does not exist
    /// the rollback is refused.
    pub fn down(&self, schema: &mut Schema) -> (r: Result<(), SchemaError>)
        ensures
            drop_outcome(old(schema).tables@, reset_token_table_name(), r, final(schema).tables@),
    {
        schema.drop_table(dropped_table())
    }
}

proof fn lemma_without_absent(tables: Seq<TableDef>, name: Seq<char>)
    requires
        !has_table(tables, name),
    ensures
        without_table(tables, name) == tables,
    decreases tables.len(),
{
    if tables.len() > 0 {
        assert(tables[0].name@ != name);
        assert forall|i: int| 0 <= i < tables.drop_first().len() implies #[trigger] tables.drop_first()[i].name@
            != name by {
            assert(tables.drop_first()[i] == tables[i + 1]);
        }
        lemma_without_absent(tables.drop_first(), name);
        assert(seq![tables[0]] + tables.drop_first() =~= tables);
    }
}

proof fn lemma_without_concat(a: Seq<TableDef>, b: Seq<TableDef>, name: Seq<char>)
    ensures
        without_table(a + b, name) == without_table(a, name) + without_table(b, name),
    decreases a.len(),
{
    if a.len() == 0 {
        assert(a + b =~= b);
        assert(without_table(a, name) + without_table(b, name) =~= without_table(b, name));
    } else {
        assert((a + b).drop_first() =~= a.drop_first() + b);
        assert((a + b)[0] == a[0]);
        lemma_without_concat(a.drop_first(), b, name);
        let head = if a[0].name@ == name { Seq::<TableDef>::empty() } else { seq![a[0]] };
        assert(head + (without_table(a.drop_first(), name) + without_table(b, name)) =~= (head
            + without_table(a.drop_first(), name)) + without_table(b, name));
    }
}

/// Running the migration forward a second time, after a first run that
/// succeeded, succeeds and changes nothing.
pub proof fn law_second_up_changes_nothing(
    s0: Seq<TableDef>,
    r1: Result<(), SchemaError>,
    s1: Seq<TableDef>,
    r2: Result<(), SchemaError>,
    s2: Seq<TableDef>,
)
    requires
        up_outcome(s0, r1, s1),
        r1 is Ok,
        up_outcome(s1, r2, s2),
    ensures
        r2 is Ok,
        s2 == s1,
{
    if !has_table(s0, reset_token_table_name()) {
        let last = s1.len() - 1;
        assert(s1[last] == s1.last());
        assert(s1[last].name@ == reset_token_table_name());
    }
}

/// Rolling back a successful forward run restores the schema it started
/// from, where that schema had no password-reset table: the table, its
/// columns and its foreign key go, and every other table is as it was.
pub proof fn law_down_undoes_up(
    s0: Seq<TableDef>,
    r1: Result<(), SchemaError>,
    s1: Seq<TableDef>,
    r2: Result<(), SchemaError>,
    s2: Seq<TableDef>,
)
    requires
        !has_table(s0, reset_token_table_name()),
        up_outcome(s0, r1, s1),
        r1 is Ok,
        drop_outcome(s1, reset_token_table_name(), r2, s2),
    ensures
        r2 is Ok,
        s2 == s0,
{
    let t = s1.last();
    let last = s1.len() - 1;
    assert(s1[last] == t);
    assert(s1 =~= s0 + seq![t]);
    lemma_without_concat(s0, seq![t], reset_token_table_name());
    lemma_without_absent(s0, reset_token_table_name());
    assert(t.name@ == reset_token_table_name());
    assert(seq![t].drop_first() =~= Seq::<TableDef>::empty());
    assert(without_table(Seq::<TableDef>::empty(), reset_token_table_name()) == Seq::<TableDef>::empty());
    assert(without_table(seq![t], reset_token_table_name()) =~= Seq::<TableDef>::empty());
    assert(s0 + Seq::<TableDef>::empty() =~= s0);
}

/// Rolling back where there is no password-reset table is refused and leaves
/// the schema as it is.
pub proof fn law_down_without_table_is_refused(
    s0: Seq<TableDef>,
    r: Result<(), SchemaError>,
    s1: Seq<TableDef>,
)
    requires
        !has_table(s0, reset_token_table_name()),
        drop_outcome(s0, reset_token_table_name(), r, s1),
    ensures
        r == Err::<(), SchemaError>(SchemaError::TableNotFound),
        s1 == s0,
{
}

} // verus!
