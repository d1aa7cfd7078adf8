//! Structured facts about one relational table, and the per-table options
//! that steer generation.

use vstd::prelude::*;

verus! {

/// One column of a table: its identifier, its scalar or reference type name,
/// and whether the column admits null.
pub struct Column {
    pub name: String,
    pub ty: String,
    pub is_nullable: bool,
}

/// A foreign-key edge: the referenced table's name and the local column that
/// joins to it.
pub struct ForeignKey {
    pub referenced_table: String,
    pub join_column: String,
}

/// Structured facts about one table: its name, the base name of the record
/// types generated for it, its ordered columns, its primary-key column names
/// (in declared key order) and its foreign-key edges.
pub struct TableDescriptor {
    pub name: String,
    pub struct_name: String,
    pub columns: Vec<Column>,
    pub primary_key_columns: Vec<String>,
    pub foreign_keys: Vec<ForeignKey>,
}

/// Per-table generation options: the column names the database fills in by
/// itself, and whether the secondary annotation line is emitted.
pub struct TableOptions {
    pub autogenerated_columns: Vec<String>,
    pub tsync: bool,
}

/// Generation-wide configuration: the connection type the emitted operations
/// take, and the options for the table being generated.
pub struct GenerationConfig {
    pub connection_type: String,
    pub options: TableOptions,
}

/// Why generation failed for a table.
#[derive(Clone, Copy, PartialEq, Eq, Structural, Debug)]
pub enum GenerationError {
    /// A declared primary-key column name does not exist among the table's
    /// columns, so the key parameter types cannot be determined.
    PrimaryKeyColumnNotFound,
}

/// Whether some string in `names` reads `n`.
pub open spec fn is_name_in(names: Seq<String>, n: Seq<char>) -> bool {
    exists|i: int| 0 <= i < names.len() && names[i]@ == n
}

/// Whether some column of `cols` is named `n`.
pub open spec fn has_col_named(cols: Seq<Column>, n: Seq<char>) -> bool {
    exists|i: int| 0 <= i < cols.len() && cols[i].name@ == n
}

/// The type name of the first column of `cols` named `n` (the empty sequence
/// when there is none).
pub open spec fn col_ty_of(cols: Seq<Column>, n: Seq<char>) -> Seq<char>
    decreases cols.len(),
{
    if cols.len() == 0 {
        Seq::empty()
    } else if cols.first().name@ == n {
        cols.first().ty@
    } else {
        col_ty_of(cols.drop_first(), n)
    }
}

/// Every declared primary-key column name exists among the table's columns.
pub open spec fn pks_exist(t: TableDescriptor) -> bool {
    forall|i: int| 0 <= i < t.primary_key_columns@.len()
        ==> has_col_named(t.columns@, t.primary_key_columns@[i]@)
}

impl TableDescriptor {
    /// Whether `n` is one of this table's primary-key column names.
    pub open spec fn spec_is_pk(&self, n: Seq<char>) -> bool {
        is_name_in(self.primary_key_columns@, n)
    }

    pub fn is_pk(&self, n: &String) -> (r: bool)
        ensures
            r == self.spec_is_pk(n@),
    {
        contains_name(&self.primary_key_columns, n)
    }
}

impl TableOptions {
    /// Whether `n` is one of the autogenerated column names.
    pub open spec fn spec_is_autogenerated(&self, n: Seq<char>) -> bool {
        is_name_in(self.autogenerated_columns@, n)
    }

    pub fn is_autogenerated(&self, n: &String) -> (r: bool)
        ensures
            r == self.spec_is_autogenerated(n@),
    {
        contains_name(&self.autogenerated_columns, n)
    }
}

/// Whether some string in `names` reads `n`.
pub fn contains_name(names: &Vec<String>, n: &String) -> (r: bool)
    ensures
        r == is_name_in(names@, n@),
{
    let mut i: usize = 0;
    while i < names.len()
        invariant
            0 <= i <= names.len(),
            forall|j: int| 0 <= j < i ==> names@[j]@ != n@,
        decreases names.len() - i,
    {
        if names[i] == *n {
            return true;
        }
        i = i + 1;
    }
    false
}

/// The type name of the first column of `cols` named `n`, when one exists.
pub fn find_col_ty(cols: &Vec<Column>, n: &String) -> (r: Option<String>)
    ensures
        r is Some <==> has_col_named(cols@, n@),
        r is Some ==> r->0@ == col_ty_of(cols@, n@),
{
    let mut i: usize = 0;
    assert(cols@.skip(0) =~= cols@);
    while i < cols.len()
        invariant
            0 <= i <= cols.len(),
            forall|j: int| 0 <= j < i ==> cols@[j].name@ != n@,
            col_ty_of(cols@, n@) == col_ty_of(cols@.skip(i as int), n@),
        decreases cols.len() - i,
    {
        if cols[i].name == *n {
            assert(cols@.skip(i as int).first() == cols@[i as int]);
            return Some(cols[i].ty.clone());
        }
        assert(cols@.skip(i as int).drop_first() =~= cols@.skip(i as int + 1));
        i = i + 1;
    }
    assert(cols@.skip(i as int).len() == 0);
    None
}

} // verus!
