//! Which columns appear in each record-type variant, and with what
//! optionality. `Read` (and the nominal `Form`) keep every column; `Create`
//! drops the autogenerated columns; `Update` drops the primary-key columns
//! and forces every remaining field to be independently settable.

use vstd::prelude::*;

use crate::descriptor::{Column, TableDescriptor, TableOptions};

verus! {

/// The record-type variants generated for a table. `Form` is a nominal shape
/// that the synthesis pipeline never constructs; when instantiated it behaves
/// like `Read`.
#[derive(Clone, Copy, PartialEq, Eq, Structural)]
pub enum StructType {
    Read,
    Form,
    Update,
    Create,
}

/// The name prepended to the base record name for this variant.
pub open spec fn prefix_text(ty: StructType) -> Seq<char> {
    match ty {
        StructType::Read => ""@,
        StructType::Form => ""@,
        StructType::Update => "Update"@,
        StructType::Create => "Create"@,
    }
}

/// The name appended to the base record name for this variant.
pub open spec fn suffix_text(ty: StructType) -> Seq<char> {
    match ty {
        StructType::Read => ""@,
        StructType::Form => "Form"@,
        StructType::Update => ""@,
        StructType::Create => ""@,
    }
}

/// The identifier of this variant's record type for a given base name.
pub open spec fn struct_ident_text(ty: StructType, base: Seq<char>) -> Seq<char> {
    prefix_text(ty) + base + suffix_text(ty)
}

impl StructType {
    pub fn prefix(&self) -> (r: &'static str)
        ensures
            r@ == prefix_text(*self),
    {
        match self {
            StructType::Read => "",
            StructType::Form => "",
            StructType::Update => "Update",
            StructType::Create => "Create",
        }
    }

    pub fn suffix(&self) -> (r: &'static str)
        ensures
            r@ == suffix_text(*self),
    {
        match self {
            StructType::Read => "",
            StructType::Form => "Form",
            StructType::Update => "",
            StructType::Create => "",
        }
    }

    /// The record-type identifier for this variant given a base name.
    pub fn format(&self, name: &str) -> (r: String)
        ensures
            r@ == struct_ident_text(*self, name@),
    {
        let mut s: String = self.prefix().to_owned();
        s.append(name);
        s.append(self.suffix());
        s
    }
}

/// One field of a generated record type. `base_type` is the column's type,
/// already wrapped in `Option<..>` when the column is nullable;
/// `is_optional` is the optionality forced by the variant (partial updates),
/// independent of nullability. The emitted type collapses the two into a
/// single optional layer.
#[derive(Clone)]
pub struct StructField {
    pub name: String,
    pub base_type: String,
    pub is_optional: bool,
    pub is_nullable: bool,
}

/// The mathematical shape of a generated field.
pub struct FieldV {
    pub name: Seq<char>,
    pub base_type: Seq<char>,
    pub is_optional: bool,
    pub is_nullable: bool,
}

impl View for StructField {
    type V = FieldV;

    open spec fn view(&self) -> FieldV {
        FieldV {
            name: self.name@,
            base_type: self.base_type@,
            is_optional: self.is_optional,
            is_nullable: self.is_nullable,
        }
    }
}

impl DeepView for StructField {
    type V = FieldV;

    open spec fn deep_view(&self) -> FieldV {
        self.view()
    }
}

/// Whether this variant includes the column at all.
pub open spec fn col_included(
    ty: StructType,
    t: TableDescriptor,
    opts: TableOptions,
    c: Column,
) -> bool {
    match ty {
        StructType::Read => true,
        StructType::Form => true,
        StructType::Update => !t.spec_is_pk(c.name@),
        StructType::Create => !opts.spec_is_autogenerated(c.name@),
    }
}

/// Whether this variant forces every included field to be optional.
pub open spec fn forced_optional(ty: StructType) -> bool {
    ty is Update
}

/// The column's type, wrapped once when the column is nullable.
pub open spec fn base_type_text(c: Column) -> Seq<char> {
    if c.is_nullable {
        "Option<"@ + c.ty@ + ">"@
    } else {
        c.ty@
    }
}

/// The field generated for one included column.
pub open spec fn field_of(ty: StructType, c: Column) -> FieldV {
    FieldV {
        name: c.name@,
        base_type: base_type_text(c),
        is_optional: forced_optional(ty),
        is_nullable: c.is_nullable,
    }
}

/// The type written in the field's source line: wrapped once more only when
/// optionality is forced on a column that is not already optional through
/// nullability, so a field never carries two optional layers.
pub open spec fn rendered_type_text(f: FieldV) -> Seq<char> {
    if f.is_optional && !f.is_nullable {
        "Option<"@ + f.base_type + ">"@
    } else {
        f.base_type
    }
}

/// The fields this variant generates for the columns `cols`, in column order.
pub open spec fn fields_of_cols(
    ty: StructType,
    t: TableDescriptor,
    opts: TableOptions,
    cols: Seq<Column>,
) -> Seq<FieldV>
    decreases cols.len(),
{
    if cols.len() == 0 {
        Seq::empty()
    } else {
        fields_of_cols(ty, t, opts, cols.drop_last()) + if col_included(ty, t, opts, cols.last()) {
            seq![field_of(ty, cols.last())]
        } else {
            Seq::empty()
        }
    }
}

/// The ordered fields this variant generates for the table.
pub open spec fn fields_of(ty: StructType, t: TableDescriptor, opts: TableOptions) -> Seq<FieldV> {
    fields_of_cols(ty, t, opts, t.columns@)
}

/// The ordered list of fields for one record-type variant of `table`.
pub fn select_fields(ty: StructType, table: &TableDescriptor, opts: &TableOptions) -> (r: Vec<
    StructField,
>)
    ensures
        r.deep_view() == fields_of(ty, *table, *opts),
{
    let mut out: Vec<StructField> = Vec::new();
    let mut i: usize = 0;
    assert(table.columns@.take(0) =~= Seq::<Column>::empty());
    while i < table.columns.len()
        invariant
            0 <= i <= table.columns.len(),
            out.deep_view() =~= fields_of_cols(ty, *table, *opts, table.columns@.take(i as int)),
        decreases table.columns.len() - i,
    {
        let c = &table.columns[i];
        let included: bool = match ty {
            StructType::Read => true,
            StructType::Form => true,
            StructType::Update => !table.is_pk(&c.name),
            StructType::Create => !opts.is_autogenerated(&c.name),
        };
        if included {
            let base_type: String = if c.is_nullable {
                let mut s: String = "Option<".to_owned();
                s.append(c.ty.as_str());
                s.append(">");
                s
            } else {
                c.ty.clone()
            };
            let forced: bool = match ty {
                StructType::Update => true,
                _ => false,
            };
            let f = StructField {
                name: c.name.clone(),
                base_type,
                is_optional: forced,
                is_nullable: c.is_nullable,
            };
            assert(f@ == field_of(ty, table.columns@[i as int]));
            out.push(f);
        }
        assert(table.columns@.take(i as int + 1).drop_last() =~= table.columns@.take(i as int));
        assert(table.columns@.take(i as int + 1).last() == table.columns@[i as int]);
        i = i + 1;
    }
    assert(table.columns@.take(table.columns@.len() as int) =~= table.columns@);
    assert(out.deep_view() =~= fields_of(ty, *table, *opts));
    out
}

/// Whether every field in `fields` is named after a primary-key column.
pub open spec fn all_fields_pk(fields: Seq<FieldV>, t: TableDescriptor) -> bool {
    forall|k: int| 0 <= k < fields.len() ==> t.spec_is_pk(#[trigger] fields[k].name)
}

proof fn lemma_update_fields_cols(t: TableDescriptor, opts: TableOptions, cols: Seq<Column>)
    ensures
        forall|k: int|
            0 <= k < fields_of_cols(StructType::Update, t, opts, cols).len() ==> {
                &&& !t.spec_is_pk(
                    #[trigger] fields_of_cols(StructType::Update, t, opts, cols)[k].name,
                )
                &&& fields_of_cols(StructType::Update, t, opts, cols)[k].is_optional
            },
    decreases cols.len(),
{
    if cols.len() > 0 {
        lemma_update_fields_cols(t, opts, cols.drop_last());
        let rec = fields_of_cols(StructType::Update, t, opts, cols.drop_last());
        let all = fields_of_cols(StructType::Update, t, opts, cols);
        assert forall|k: int| 0 <= k < all.len() implies !t.spec_is_pk(#[trigger] all[k].name)
            && all[k].is_optional by {
            if k < rec.len() {
                assert(all[k] == rec[k]);
            } else {
                assert(col_included(StructType::Update, t, opts, cols.last()));
                assert(all[k] == field_of(StructType::Update, cols.last()));
            }
        }
    }
}

/// A partial update never touches a key column: the `Update` variant's field
/// list contains no primary-key column name, and every field it does contain
/// has its optionality forced.
pub proof fn lemma_update_excludes_pk(t: TableDescriptor, opts: TableOptions)
    ensures
        forall|k: int|
            0 <= k < fields_of(StructType::Update, t, opts).len() ==> {
                &&& !t.spec_is_pk(#[trigger] fields_of(StructType::Update, t, opts)[k].name)
                &&& fields_of(StructType::Update, t, opts)[k].is_optional
            },
{
    lemma_update_fields_cols(t, opts, t.columns@);
}

/// The partial-update payload type is meaningful exactly when some field
/// survives: for the `Update` variant, "every field is a key column" holds
/// only of the empty field list.
pub proof fn lemma_update_all_pk_iff_empty(t: TableDescriptor, opts: TableOptions)
    ensures
        all_fields_pk(fields_of(StructType::Update, t, opts), t) <==> fields_of(
            StructType::Update,
            t,
            opts,
        ).len() == 0,
{
    lemma_update_excludes_pk(t, opts);
    let fs = fields_of(StructType::Update, t, opts);
    if fs.len() > 0 {
        assert(!t.spec_is_pk(fs[0].name));
        assert(!all_fields_pk(fs, t));
    }
}

proof fn lemma_create_fields_cols(t: TableDescriptor, opts: TableOptions, cols: Seq<Column>)
    ensures
        fields_of_cols(StructType::Create, t, opts, cols).map_values(|f: FieldV| f.name)
            =~= cols.map_values(|c: Column| c.name@).filter(
            |n: Seq<char>| !opts.spec_is_autogenerated(n),
        ),
    decreases cols.len(),
{
    reveal(Seq::filter);
    let names = |f: FieldV| f.name;
    let col_name = |c: Column| c.name@;
    let keep = |n: Seq<char>| !opts.spec_is_autogenerated(n);
    let q = cols.map_values(col_name);
    if cols.len() == 0 {
        assert(q.len() == 0);
    } else {
        lemma_create_fields_cols(t, opts, cols.drop_last());
        let rec = fields_of_cols(StructType::Create, t, opts, cols.drop_last());
        assert(q.drop_last() =~= cols.drop_last().map_values(col_name));
        assert(q.last() == col_name(cols.last()));
        if col_included(StructType::Create, t, opts, cols.last()) {
            assert((rec + seq![field_of(StructType::Create, cols.last())]).map_values(names)
                =~= rec.map_values(names).push(field_of(StructType::Create, cols.last()).name));
            assert(q.filter(keep) == q.drop_last().filter(keep).push(q.last()));
        } else {
            assert((rec + Seq::<FieldV>::empty()).map_values(names) =~= rec.map_values(names));
            assert(q.filter(keep) == q.drop_last().filter(keep));
        }
    }
}

/// The `Create` variant excludes exactly the autogenerated column names: its
/// field names are the table's column names with the autogenerated ones
/// filtered out, in column order.
pub proof fn lemma_create_excludes_autogenerated(t: TableDescriptor, opts: TableOptions)
    ensures
        fields_of(StructType::Create, t, opts).map_values(|f: FieldV| f.name) =~= t.columns@
            .map_values(|c: Column| c.name@).filter(
            |n: Seq<char>| !opts.spec_is_autogenerated(n),
        ),
{
    lemma_create_fields_cols(t, opts, t.columns@);
}

proof fn lemma_fields_of_cols_contains(
    ty: StructType,
    t: TableDescriptor,
    opts: TableOptions,
    cols: Seq<Column>,
    k: int,
)
    requires
        0 <= k < cols.len(),
        col_included(ty, t, opts, cols[k]),
    ensures
        fields_of_cols(ty, t, opts, cols).contains(field_of(ty, cols[k])),
    decreases cols.len(),
{
    if k == cols.len() - 1 {
        assert(cols.last() == cols[k]);
        let fs = fields_of_cols(ty, t, opts, cols);
        assert(fs[fs.len() - 1] == field_of(ty, cols[k]));
    } else {
        lemma_fields_of_cols_contains(ty, t, opts, cols.drop_last(), k);
        let rec = fields_of_cols(ty, t, opts, cols.drop_last());
        let j = choose|j: int| 0 <= j < rec.len() && rec[j] == field_of(ty, cols[k]);
        assert(fields_of_cols(ty, t, opts, cols)[j] == field_of(ty, cols[k]));
    }
}

/// A nullable column included in the `Update` variant is emitted with exactly
/// one optional layer: its field is present, and its written type is
/// `Option<..>` around the bare column type, never a second wrapping.
pub proof fn lemma_update_nullable_single_optional(
    t: TableDescriptor,
    opts: TableOptions,
    k: int,
)
    requires
        0 <= k < t.columns@.len(),
        t.columns@[k].is_nullable,
        !t.spec_is_pk(t.columns@[k].name@),
    ensures
        fields_of(StructType::Update, t, opts).contains(field_of(StructType::Update, t.columns@[k])),
        rendered_type_text(field_of(StructType::Update, t.columns@[k])) == "Option<"@
            + t.columns@[k].ty@ + ">"@,
{
    lemma_fields_of_cols_contains(StructType::Update, t, opts, t.columns@, k);
}

} // verus!
