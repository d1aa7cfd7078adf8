//! Assembles the generated source text for one table: the record types for
//! the `Read`, `Create` and `Update` variants, the import block, and the
//! CRUD/pagination operations that are legal for the table.

use vstd::prelude::*;

use crate::descriptor::{
    ForeignKey, GenerationConfig, GenerationError, TableDescriptor, TableOptions, col_ty_of,
    has_col_named, pks_exist,
};
use crate::fields::{
    FieldV, StructField, StructType, all_fields_pk, fields_of, rendered_type_text, select_fields,
    struct_ident_text,
};
use crate::inflect::{
    lower_of, lowercase, pascal_case, pascal_of, singular_of, singularize, snake_case, snake_of,
};

verus! {

/// `items` joined with `sep` between consecutive items.
pub open spec fn join_texts(items: Seq<Seq<char>>, sep: Seq<char>) -> Seq<char>
    decreases items.len(),
{
    if items.len() == 0 {
        Seq::empty()
    } else if items.len() == 1 {
        items[0]
    } else {
        join_texts(items.drop_last(), sep) + sep + items.last()
    }
}

/// Joins the strings of `list` with `sep` between consecutive strings.
fn join_strings(list: &Vec<String>, sep: &str) -> (res: String)
    ensures
        res@ == join_texts(list.deep_view(), sep@),
{
    let mut res = String::new();
    let mut i: usize = 0;
    while i < list.len()
        invariant
            0 <= i <= list.len(),
            res@ =~= join_texts(list.deep_view().take(i as int), sep@),
        decreases list.len() - i,
    {
        if i != 0 {
            res.append(sep);
        }
        res.append(list[i].as_str());
        proof {
            let dv = list.deep_view();
            assert(dv.take(i as int + 1).drop_last() =~= dv.take(i as int));
            assert(dv.take(i as int + 1).last() == dv[i as int]);
        }
        i = i + 1;
    }
    proof {
        assert(list.deep_view().take(list@.len() as int) =~= list.deep_view());
        assert(res@ =~= join_texts(list.deep_view(), sep@));
    }
    res
}

/// The page size the emitted pagination operation actually uses: the
/// requested size, clamped to a minimum of one.
pub open spec fn spec_effective_page_size(page_size: int) -> int {
    if page_size < 1 {
        1
    } else {
        page_size
    }
}

/// The page count the emitted pagination operation reports: the ceiling of
/// `total_items` divided by the effective page size.
pub open spec fn spec_num_pages(total_items: int, page_size: int) -> int {
    let s = spec_effective_page_size(page_size);
    total_items / s + if total_items % s != 0 {
        1int
    } else {
        0int
    }
}

/// The clamp the emitted `paginate` performs on its requested page size.
pub fn effective_page_size(page_size: i64) -> (r: i64)
    ensures
        r == spec_effective_page_size(page_size as int),
        r >= 1,
{
    if page_size < 1 {
        1
    } else {
        page_size
    }
}

/// The page count the emitted `paginate` reports for a row count and a
/// requested page size: ceiling division by the effective page size, so a
/// row count of zero gives zero pages and a partial last page counts.
pub fn num_pages(total_items: i64, page_size: i64) -> (r: i64)
    requires
        total_items >= 0,
    ensures
        r == spec_num_pages(total_items as int, page_size as int),
        total_items == 0 ==> r == 0,
        r >= 0,
{
    let s = effective_page_size(page_size);
    let q = total_items / s;
    let rem = total_items % s;
    if rem != 0 {
        proof {
            assert(s >= 2) by {
                if s == 1 {
                    assert(total_items as int % 1int == 0);
                }
            }
            assert(q < total_items) by (nonlinear_arith)
                requires
                    s >= 2,
                    total_items >= 1,
                    q == total_items as int / s as int,
            ;
        }
        q + 1
    } else {
        q
    }
}

/// The fixed header every generated file opens with.
pub open spec fn file_signature_text() -> Seq<char> {
    "/* Managed data-access code for this table. Edit the schema, not this file. */"@
}

/// The secondary annotation line of a record type, when enabled.
pub open spec fn tsync_attr_text(tsync: bool) -> Seq<char> {
    if tsync {
        "#[tsync::tsync]\n"@
    } else {
        ""@
    }
}

/// The secondary annotation of the operations block, when enabled.
pub open spec fn tsync_attr_fns_text(tsync: bool) -> Seq<char> {
    if tsync {
        "#[tsync::tsync]"@
    } else {
        ""@
    }
}

/// The capability annotation line of a record type. Every variant can be
/// debug-printed, serialized, deserialized, cloned, decoded from a query row
/// and encoded as an insert payload; the partial-update capability is left
/// out exactly when every selected field is a primary-key column, and only
/// the `Read` shape of a table with foreign keys joins and is addressable by
/// key.
pub open spec fn derive_text(ty: StructType, t: TableDescriptor, opts: TableOptions) -> Seq<char> {
    "#[derive(Debug, Serialize, Deserialize, Clone, Queryable, Insertable"@ + (
    if all_fields_pk(fields_of(ty, t, opts), t) {
        ""@
    } else {
        ", AsChangeset"@
    }) + (if ty is Read && t.foreign_keys@.len() > 0 {
        ", Identifiable"@
    } else {
        ""@
    }) + (if ty is Read && t.foreign_keys@.len() > 0 {
        ", Associations"@
    } else {
        ""@
    }) + ")]"@
}

/// The primary-key clause of the `Read` shape: all key column names in
/// declared key order.
pub open spec fn pk_clause_text(ty: StructType, t: TableDescriptor) -> Seq<char> {
    if ty is Read {
        ", primary_key("@ + join_texts(t.primary_key_columns.deep_view(), ","@) + ")"@
    } else {
        ""@
    }
}

/// One belongs-to clause: the referenced table as a singular, capitalized
/// type name, and the local join column.
pub open spec fn belongs_item_text(fk: ForeignKey) -> Seq<char> {
    ", belongs_to("@ + singular_of(pascal_of(fk.referenced_table@)) + ", foreign_key="@
        + fk.join_column@ + ")"@
}

/// The belongs-to clauses of the `Read` shape, one per foreign key.
pub open spec fn belongs_clause_text(ty: StructType, t: TableDescriptor) -> Seq<char> {
    if ty is Read {
        join_texts(t.foreign_keys@.map_values(|fk: ForeignKey| belongs_item_text(fk)), " "@)
    } else {
        ""@
    }
}

/// One field's source line.
pub open spec fn field_line_text(f: FieldV) -> Seq<char> {
    "    pub "@ + f.name + ": "@ + rendered_type_text(f) + ",\n"@
}

/// The field lines of a record type, in selection order.
pub open spec fn field_lines_text(fields: Seq<FieldV>) -> Seq<char>
    decreases fields.len(),
{
    if fields.len() == 0 {
        Seq::empty()
    } else {
        field_lines_text(fields.drop_last()) + field_line_text(fields.last())
    }
}

/// The source text of one record-type variant. A variant with no fields
/// emits no text at all.
pub open spec fn struct_text(ty: StructType, t: TableDescriptor, opts: TableOptions) -> Seq<char> {
    if fields_of(ty, t, opts).len() == 0 {
        ""@
    } else {
        tsync_attr_text(opts.tsync) + derive_text(ty, t, opts) + "\n#[diesel(table_name="@ + t.name@
            + pk_clause_text(ty, t) + belongs_clause_text(ty, t) + ")]\npub struct "@
            + struct_ident_text(ty, t.struct_name@) + " {\n"@ + field_lines_text(
            fields_of(ty, t, opts),
        ) + "}\n"@
    }
}

/// One import of a referenced table's `Read`-shaped type, resolved through
/// the deterministic naming transforms.
pub open spec fn belongs_import_text(fk: ForeignKey) -> Seq<char> {
    "use crate::models::"@ + lower_of(snake_of(fk.referenced_table@)) + "::"@ + singular_of(
        pascal_of(fk.referenced_table@),
    ) + ";"@
}

/// The leading import block: the base relational-mapping imports, one import
/// per foreign key, and the configured connection type.
pub open spec fn imports_text(t: TableDescriptor, config: GenerationConfig) -> Seq<char> {
    "use crate::diesel::*;\nuse crate::schema::*;\nuse diesel::QueryResult;\nuse serde::{Deserialize, Serialize};\n"@
        + join_texts(t.foreign_keys@.map_values(|fk: ForeignKey| belongs_import_text(fk)), "\n"@)
        + "\n\ntype Connection = "@ + config.connection_type@ + ";\n"@
}

/// One keyed-operation parameter: `param_<name>: <column type>`.
pub open spec fn pk_param_text(t: TableDescriptor, pk: String) -> Seq<char> {
    "param_"@ + pk@ + ": "@ + col_ty_of(t.columns@, pk@)
}

/// The keyed-operation parameter list, in declared key order.
pub open spec fn pk_params_text(t: TableDescriptor) -> Seq<char> {
    join_texts(t.primary_key_columns@.map_values(|pk: String| pk_param_text(t, pk)), ", "@)
}

/// One equality filter on a key column.
pub open spec fn pk_filter_text(pk: String) -> Seq<char> {
    "filter("@ + pk@ + ".eq(param_"@ + pk@ + "))"@
}

/// The conjunction of equality filters over all key columns, in declared key
/// order.
pub open spec fn pk_filters_text(t: TableDescriptor) -> Seq<char> {
    join_texts(t.primary_key_columns@.map_values(|pk: String| pk_filter_text(pk)), "."@)
}

/// The belongs-to clauses of a table's foreign keys, as strings.
fn belongs_attr_items(fks: &Vec<ForeignKey>) -> (r: Vec<String>)
    ensures
        r.deep_view() == fks@.map_values(|fk: ForeignKey| belongs_item_text(fk)),
{
    let ghost target = fks@.map_values(|fk: ForeignKey| belongs_item_text(fk));
    let mut out: Vec<String> = Vec::new();
    let mut i: usize = 0;
    while i < fks.len()
        invariant
            0 <= i <= fks.len(),
            target == fks@.map_values(|fk: ForeignKey| belongs_item_text(fk)),
            target.len() == fks@.len(),
            out.deep_view() =~= target.take(i as int),
        decreases fks.len() - i,
    {
        let fk = &fks[i];
        let mut s: String = ", belongs_to(".to_owned();
        s.append(singularize(pascal_case(fk.referenced_table.as_str()).as_str()).as_str());
        s.append(", foreign_key=");
        s.append(fk.join_column.as_str());
        s.append(")");
        assert(s@ == target[i as int]);
        let ghost prev = out.deep_view();
        out.push(s);
        proof {
            assert(out.deep_view() =~= prev.push(s@));
            assert(out.deep_view() =~= target.take(i as int + 1));
        }
        i = i + 1;
    }
    proof {
        assert(target.take(fks@.len() as int) =~= target);
        assert(out.deep_view() =~= target);
    }
    out
}

/// The per-foreign-key imports of a table, as strings.
fn belongs_import_items(fks: &Vec<ForeignKey>) -> (r: Vec<String>)
    ensures
        r.deep_view() == fks@.map_values(|fk: ForeignKey| belongs_import_text(fk)),
{
    let ghost target = fks@.map_values(|fk: ForeignKey| belongs_import_text(fk));
    let mut out: Vec<String> = Vec::new();
    let mut i: usize = 0;
    while i < fks.len()
        invariant
            0 <= i <= fks.len(),
            target == fks@.map_values(|fk: ForeignKey| belongs_import_text(fk)),
            target.len() == fks@.len(),
            out.deep_view() =~= target.take(i as int),
        decreases fks.len() - i,
    {
        let fk = &fks[i];
        let mut s: String = "use crate::models::".to_owned();
        s.append(lowercase(snake_case(fk.referenced_table.as_str()).as_str()).as_str());
        s.append("::");
        s.append(singularize(pascal_case(fk.referenced_table.as_str()).as_str()).as_str());
        s.append(";");
        assert(s@ == target[i as int]);
        let ghost prev = out.deep_view();
        out.push(s);
        proof {
            assert(out.deep_view() =~= prev.push(s@));
            assert(out.deep_view() =~= target.take(i as int + 1));
        }
        i = i + 1;
    }
    proof {
        assert(target.take(fks@.len() as int) =~= target);
        assert(out.deep_view() =~= target);
    }
    out
}

/// The keyed-operation parameters of a table, as strings, or the failure
/// when a declared key column does not exist among the columns.
fn pk_param_items(t: &TableDescriptor) -> (r: Result<Vec<String>, GenerationError>)
    ensures
        r is Ok <==> pks_exist(*t),
        r matches Ok(v) ==> v.deep_view() == t.primary_key_columns@.map_values(
            |pk: String| pk_param_text(*t, pk),
        ),
        r matches Err(e) ==> e == GenerationError::PrimaryKeyColumnNotFound,
{
    let ghost target = t.primary_key_columns@.map_values(|pk: String| pk_param_text(*t, pk));
    let mut out: Vec<String> = Vec::new();
    let mut i: usize = 0;
    while i < t.primary_key_columns.len()
        invariant
            0 <= i <= t.primary_key_columns.len(),
            target == t.primary_key_columns@.map_values(|pk: String| pk_param_text(*t, pk)),
            target.len() == t.primary_key_columns@.len(),
            out.deep_view() =~= target.take(i as int),
            forall|j: int| 0 <= j < i ==> has_col_named(t.columns@, t.primary_key_columns@[j]@),
        decreases t.primary_key_columns.len() - i,
    {
        let pk = &t.primary_key_columns[i];
        let ty = match crate::descriptor::find_col_ty(&t.columns, pk) {
            Some(ty) => ty,
            None => {
                return Err(GenerationError::PrimaryKeyColumnNotFound);
            },
        };
        let mut s: String = "param_".to_owned();
        s.append(pk.as_str());
        s.append(": ");
        s.append(ty.as_str());
        assert(s@ == target[i as int]);
        let ghost prev = out.deep_view();
        out.push(s);
        proof {
            assert(out.deep_view() =~= prev.push(s@));
            assert(out.deep_view() =~= target.take(i as int + 1));
        }
        i = i + 1;
    }
    proof {
        assert(target.take(t.primary_key_columns@.len() as int) =~= target);
        assert(out.deep_view() =~= target);
    }
    Ok(out)
}

/// The equality filters on a table's key columns, as strings.
fn pk_filter_items(t: &TableDescriptor) -> (r: Vec<String>)
    ensures
        r.deep_view() == t.primary_key_columns@.map_values(|pk: String| pk_filter_text(pk)),
{
    let ghost target = t.primary_key_columns@.map_values(|pk: String| pk_filter_text(pk));
    let mut out: Vec<String> = Vec::new();
    let mut i: usize = 0;
    while i < t.primary_key_columns.len()
        invariant
            0 <= i <= t.primary_key_columns.len(),
            target == t.primary_key_columns@.map_values(|pk: String| pk_filter_text(pk)),
            target.len() == t.primary_key_columns@.len(),
            out.deep_view() =~= target.take(i as int),
        decreases t.primary_key_columns.len() - i,
    {
        let pk = &t.primary_key_columns[i];
        let mut s: String = "filter(".to_owned();
        s.append(pk.as_str());
        s.append(".eq(param_");
        s.append(pk.as_str());
        s.append("))");
        assert(s@ == target[i as int]);
        let ghost prev = out.deep_view();
        out.push(s);
        proof {
            assert(out.deep_view() =~= prev.push(s@));
            assert(out.deep_view() =~= target.take(i as int + 1));
        }
        i = i + 1;
    }
    proof {
        assert(target.take(t.primary_key_columns@.len() as int) =~= target);
        assert(out.deep_view() =~= target);
    }
    out
}

/// Whether every field of `fields` is named after a primary-key column of
/// `table`.
fn fields_all_pk(table: &TableDescriptor, fields: &Vec<StructField>) -> (r: bool)
    ensures
        r == all_fields_pk(fields.deep_view(), *table),
{
    let mut i: usize = 0;
    while i < fields.len()
        invariant
            0 <= i <= fields.len(),
            forall|j: int| 0 <= j < i ==> table.spec_is_pk(#[trigger] fields.deep_view()[j].name),
        decreases fields.len() - i,
    {
        if !table.is_pk(&fields[i].name) {
            assert(fields.deep_view()[i as int].name == fields@[i as int].name@);
            assert(!all_fields_pk(fields.deep_view(), *table));
            return false;
        }
        assert(fields.deep_view()[i as int].name == fields@[i as int].name@);
        i = i + 1;
    }
    true
}

/// The capability annotation line, from an already selected field list.
fn derive_attr_string(
    ty: StructType,
    table: &TableDescriptor,
    opts: &TableOptions,
    fields: &Vec<StructField>,
) -> (r: String)
    requires
        fields.deep_view() == fields_of(ty, *table, *opts),
    ensures
        r@ == derive_text(ty, *table, *opts),
{
    let all_pk = fields_all_pk(table, fields);
    let mut s: String =
        "#[derive(Debug, Serialize, Deserialize, Clone, Queryable, Insertable".to_owned();
    s.append(if all_pk {
        ""
    } else {
        ", AsChangeset"
    });
    let read_with_fks: bool = match ty {
        StructType::Read => table.foreign_keys.len() > 0,
        _ => false,
    };
    s.append(if read_with_fks {
        ", Identifiable"
    } else {
        ""
    });
    s.append(if read_with_fks {
        ", Associations"
    } else {
        ""
    });
    s.append(")]");
    s
}

/// The source text of one record-type variant, from its selected fields and
/// its identifier. A variant with no fields renders as the empty string.
fn render_code(
    ty: StructType,
    table: &TableDescriptor,
    opts: &TableOptions,
    fields: &Vec<StructField>,
    identifier: &str,
) -> (r: String)
    requires
        fields.deep_view() == fields_of(ty, *table, *opts),
        identifier@ == struct_ident_text(ty, table.struct_name@),
    ensures
        r@ == struct_text(ty, *table, *opts),
{
    if fields.len() == 0 {
        return "".to_owned();
    }
    let derive_attr = derive_attr_string(ty, table, opts, fields);
    let is_read: bool = match ty {
        StructType::Read => true,
        _ => false,
    };
    let pk_clause: String = if is_read {
        let mut p: String = ", primary_key(".to_owned();
        let joined = join_strings(&table.primary_key_columns, ",");
        p.append(joined.as_str());
        p.append(")");
        p
    } else {
        "".to_owned()
    };
    assert(pk_clause@ == pk_clause_text(ty, *table));
    let belongs: String = if is_read {
        let items = belongs_attr_items(&table.foreign_keys);
        join_strings(&items, " ")
    } else {
        "".to_owned()
    };
    assert(belongs@ == belongs_clause_text(ty, *table));
    let mut lines: String = String::new();
    let mut i: usize = 0;
    while i < fields.len()
        invariant
            0 <= i <= fields.len(),
            lines@ =~= field_lines_text(fields.deep_view().take(i as int)),
        decreases fields.len() - i,
    {
        let f = &fields[i];
        let rty: String = if f.is_optional && !f.is_nullable {
            let mut o: String = "Option<".to_owned();
            o.append(f.base_type.as_str());
            o.append(">");
            o
        } else {
            f.base_type.clone()
        };
        assert(rty@ == rendered_type_text(fields.deep_view()[i as int]));
        lines.append("    pub ");
        lines.append(f.name.as_str());
        lines.append(": ");
        lines.append(rty.as_str());
        lines.append(",\n");
        proof {
            let dv = fields.deep_view();
            assert(dv.take(i as int + 1).drop_last() =~= dv.take(i as int));
            assert(dv.take(i as int + 1).last() == dv[i as int]);
            assert(lines@ =~= field_lines_text(dv.take(i as int + 1)));
        }
        i = i + 1;
    }
    proof {
        assert(fields.deep_view().take(fields@.len() as int) =~= fields.deep_view());
        assert(lines@ =~= field_lines_text(fields_of(ty, *table, *opts)));
    }
    let mut s: String = if opts.tsync {
        "#[tsync::tsync]\n"
    } else {
        ""
    }.to_owned();
    s.append(derive_attr.as_str());
    s.append("\n#[diesel(table_name=");
    s.append(table.name.as_str());
    s.append(pk_clause.as_str());
    s.append(belongs.as_str());
    s.append(")]\npub struct ");
    s.append(identifier);
    s.append(" {\n");
    s.append(lines.as_str());
    s.append("}\n");
    s
}

/// One record-type variant of one table, with its rendered source text and
/// the fact whether any field survived selection.
pub struct Struct<'a> {
    pub identifier: String,
    pub ty: StructType,
    pub table: &'a TableDescriptor,
    pub opts: &'a TableOptions,
    pub rendered_code: String,
    pub has_fields: bool,
}

impl<'a> Struct<'a> {
    /// The identifier, rendered text and field fact agree with the table,
    /// the options and the variant.
    pub open spec fn wf(self) -> bool {
        &&& self.identifier@ == struct_ident_text(self.ty, self.table.struct_name@)
        &&& self.rendered_code@ == struct_text(self.ty, *self.table, *self.opts)
        &&& self.has_fields == (fields_of(self.ty, *self.table, *self.opts).len() != 0)
    }

    pub fn new(ty: StructType, table: &'a TableDescriptor, config: &'a GenerationConfig) -> (s:
        Struct<'a>)
        ensures
            s.wf(),
            s.ty == ty,
            *s.table == *table,
            *s.opts == config.options,
    {
        let identifier = ty.format(table.struct_name.as_str());
        let opts = &config.options;
        let fields = select_fields(ty, table, opts);
        let has_fields = fields.len() != 0;
        let rendered_code = render_code(ty, table, opts, &fields, identifier.as_str());
        Struct { identifier, ty, table, opts, rendered_code, has_fields }
    }

    /// The rendered source text of this record type: empty when no field
    /// survived selection.
    pub fn code(&self) -> (r: &str)
        ensures
            r@ == self.rendered_code@,
    {
        self.rendered_code.as_str()
    }

    /// Whether selection kept at least one field for this variant.
    pub fn has_fields(&self) -> (r: bool)
        ensures
            r == self.has_fields,
    {
        self.has_fields
    }

    /// The secondary annotation line, when enabled by the options.
    pub fn attr_tsync(&self) -> (r: &'static str)
        ensures
            r@ == tsync_attr_text(self.opts.tsync),
    {
        if self.opts.tsync {
            "#[tsync::tsync]\n"
        } else {
            ""
        }
    }

    /// The capability annotation line of this record type.
    pub fn attr_derive(&self) -> (r: String)
        ensures
            r@ == derive_text(self.ty, *self.table, *self.opts),
    {
        let fields = self.fields();
        derive_attr_string(self.ty, self.table, self.opts, &fields)
    }

    /// The ordered fields selected for this variant.
    pub fn fields(&self) -> (r: Vec<StructField>)
        ensures
            r.deep_view() == fields_of(self.ty, *self.table, *self.opts),
    {
        select_fields(self.ty, self.table, self.opts)
    }
}

/// The pagination result type emitted once per table module.
pub open spec fn pagination_struct_text(tsync: bool) -> Seq<char> {
    tsync_attr_fns_text(tsync)
        + "\n#[derive(Serialize)]\npub struct PaginationResult<T> {\n    pub items: Vec<T>,\n    pub total_items: i64,\n    /// 0-based index\n    pub page: i64,\n    pub page_size: i64,\n    pub num_pages: i64,\n}\n"@
}

/// The form of `create` that takes a `Create`-shaped payload parameter.
pub open spec fn create_with_payload_text(t: TableDescriptor) -> Seq<char> {
    "\n    pub fn create(db: &mut Connection, item: &"@ + struct_ident_text(
        StructType::Create,
        t.struct_name@,
    ) + ") -> QueryResult<Self> {\n        use crate::schema::"@ + t.name@
        + "::dsl::*;\n\n        insert_into("@ + t.name@
        + ").values(item).get_result::<Self>(db)\n    }\n"@
}

/// The form of `create` that takes no payload and inserts default values.
pub open spec fn create_defaults_text(t: TableDescriptor) -> Seq<char> {
    "\n    pub fn create(db: &mut Connection) -> QueryResult<Self> {\n        use crate::schema::"@
        + t.name@ + "::dsl::*;\n\n        insert_into("@ + t.name@
        + ").default_values().get_result::<Self>(db)\n    }\n"@
}

/// The emitted `create` operation: it takes a `Create`-shaped payload
/// exactly when that variant kept a field, and inserts default values
/// otherwise.
pub open spec fn create_fn_text(t: TableDescriptor, opts: TableOptions) -> Seq<char> {
    if fields_of(StructType::Create, t, opts).len() != 0 {
        create_with_payload_text(t)
    } else {
        create_defaults_text(t)
    }
}

/// The emitted `create` takes a payload parameter exactly when the `Create`
/// variant kept at least one field; the two forms are distinct texts, so the
/// emitted one decides.
pub proof fn lemma_create_payload_iff_creatable(t: TableDescriptor, opts: TableOptions)
    ensures
        create_with_payload_text(t) != create_defaults_text(t),
        create_fn_text(t, opts) == create_with_payload_text(t) <==> fields_of(
            StructType::Create,
            t,
            opts,
        ).len() != 0,
{
    reveal_strlit("\n    pub fn create(db: &mut Connection, item: &");
    reveal_strlit(
        "\n    pub fn create(db: &mut Connection) -> QueryResult<Self> {\n        use crate::schema::",
    );
    assert(create_with_payload_text(t)[38] == ',');
    assert(create_defaults_text(t)[38] == ')');
}

/// The emitted `read` operation: one parameter per key column and an
/// equality filter on each, in declared key order.
pub open spec fn read_fn_text(t: TableDescriptor) -> Seq<char> {
    "\n    pub fn read(db: &mut Connection, "@ + pk_params_text(t)
        + ") -> QueryResult<Self> {\n        use crate::schema::"@ + t.name@
        + "::dsl::*;\n\n        "@ + t.name@ + "."@ + pk_filters_text(t)
        + ".first::<Self>(db)\n    }\n"@
}

/// The emitted `paginate` operation: page-size clamp, total count, offset
/// fetch and ceiling page count.
pub open spec fn paginate_fn_text(t: TableDescriptor) -> Seq<char> {
    "\n    /// Paginates through the table where page is a 0-based index (i.e. page 0 is the first page)\n    pub fn paginate(db: &mut Connection, page: i64, page_size: i64) -> QueryResult<PaginationResult<Self>> {\n        use crate::schema::"@
        + t.name@
        + "::dsl::*;\n\n        let page_size = if page_size < 1 { 1 } else { page_size };\n        let total_items = "@
        + t.name@ + ".count().get_result(db)?;\n        let items = "@ + t.name@
        + ".limit(page_size).offset(page * page_size).load::<Self>(db)?;\n\n        Ok(PaginationResult {\n            items,\n            total_items,\n            page,\n            page_size,\n            /* ceiling division of integers */\n            num_pages: total_items / page_size + i64::from(total_items % page_size != 0)\n        })\n    }\n"@
}

/// The emitted `update` operation: key parameters, key filters, and the
/// `Update`-shaped partial payload.
pub open spec fn update_fn_text(t: TableDescriptor) -> Seq<char> {
    "\n    pub fn update(db: &mut Connection, "@ + pk_params_text(t) + ", item: &"@
        + struct_ident_text(StructType::Update, t.struct_name@)
        + ") -> QueryResult<Self> {\n        use crate::schema::"@ + t.name@
        + "::dsl::*;\n\n        diesel::update("@ + t.name@ + "."@ + pk_filters_text(t)
        + ").set(item).get_result(db)\n    }\n"@
}

/// The `update` operation stands in the output exactly when the `Update`
/// variant kept a field; otherwise nothing is emitted for it.
pub open spec fn update_section_text(t: TableDescriptor, opts: TableOptions) -> Seq<char> {
    if fields_of(StructType::Update, t, opts).len() != 0 {
        update_fn_text(t)
    } else {
        ""@
    }
}

/// An update operation stands in the operations block exactly when the
/// `Update` variant kept at least one field; for a table whose every column
/// is part of the key, nothing is emitted for it.
pub proof fn lemma_update_emitted_iff_updatable(t: TableDescriptor, opts: TableOptions)
    ensures
        update_section_text(t, opts).len() != 0 <==> fields_of(StructType::Update, t, opts).len()
            != 0,
{
    reveal_strlit("");
    if fields_of(StructType::Update, t, opts).len() != 0 {
        reveal_strlit("\n    pub fn update(db: &mut Connection, ");
        assert(("\n    pub fn update(db: &mut Connection, "@).len() > 0);
        assert(update_fn_text(t).len() > 0);
    }
}

/// A keyed operation on a composite key filters on every key column
/// conjunctively, and takes its parameters, in the declared key order.
pub proof fn lemma_composite_key_filters_in_order(t: TableDescriptor)
    requires
        t.primary_key_columns@.len() == 2,
    ensures
        pk_filters_text(t) == pk_filter_text(t.primary_key_columns@[0]) + "."@ + pk_filter_text(
            t.primary_key_columns@[1],
        ),
        pk_params_text(t) == pk_param_text(t, t.primary_key_columns@[0]) + ", "@ + pk_param_text(
            t,
            t.primary_key_columns@[1],
        ),
{
    let filters = t.primary_key_columns@.map_values(|pk: String| pk_filter_text(pk));
    assert(filters.drop_last() =~= seq![filters[0]]);
    assert(join_texts(seq![filters[0]], "."@) == filters[0]);
    assert(filters.last() == filters[1]);
    assert(join_texts(filters, "."@) == filters[0] + "."@ + filters[1]);
    let params = t.primary_key_columns@.map_values(|pk: String| pk_param_text(t, pk));
    assert(params.drop_last() =~= seq![params[0]]);
    assert(join_texts(seq![params[0]], ", "@) == params[0]);
    assert(params.last() == params[1]);
    assert(join_texts(params, ", "@) == params[0] + ", "@ + params[1]);
}

/// The emitted `delete` operation: key parameters, key filters, and the
/// count of removed rows.
pub open spec fn delete_fn_text(t: TableDescriptor) -> Seq<char> {
    "\n    pub fn delete(db: &mut Connection, "@ + pk_params_text(t)
        + ") -> QueryResult<usize> {\n        use crate::schema::"@ + t.name@
        + "::dsl::*;\n\n        diesel::delete("@ + t.name@ + "."@ + pk_filters_text(t)
        + ").execute(db)\n    }\n"@
}

/// The whole operations block of one table.
pub open spec fn table_fns_text(t: TableDescriptor, config: GenerationConfig) -> Seq<char> {
    pagination_struct_text(config.options.tsync) + "\nimpl "@ + t.struct_name@ + " {\n"@
        + create_fn_text(t, config.options) + read_fn_text(t) + paginate_fn_text(t)
        + update_section_text(t, config.options) + delete_fn_text(t) + "\n}"@
}

/// The three record types of one table, read then create then update; a
/// variant with no fields contributes only its separating newline.
pub open spec fn structs_text(t: TableDescriptor, opts: TableOptions) -> Seq<char> {
    struct_text(StructType::Read, t, opts) + "\n"@ + struct_text(StructType::Create, t, opts)
        + "\n"@ + struct_text(StructType::Update, t, opts)
}

/// The complete generated source for one table.
pub open spec fn file_text(t: TableDescriptor, config: GenerationConfig) -> Seq<char> {
    file_signature_text() + "\n\n"@ + imports_text(t, config) + "\n"@ + structs_text(
        t,
        config.options,
    ) + "\n"@ + table_fns_text(t, config)
}

/// The leading import block of one table's generated source.
fn build_imports(table: &TableDescriptor, config: &GenerationConfig) -> (r: String)
    ensures
        r@ == imports_text(*table, *config),
{
    let items = belongs_import_items(&table.foreign_keys);
    let joined = join_strings(&items, "\n");
    let mut s: String =
        "use crate::diesel::*;\nuse crate::schema::*;\nuse diesel::QueryResult;\nuse serde::{Deserialize, Serialize};\n".to_owned();
    s.append(joined.as_str());
    s.append("\n\ntype Connection = ");
    s.append(config.connection_type.as_str());
    s.append(";\n");
    s
}

/// The operations block for one table, from the already built `Create` and
/// `Update` record types. Fails exactly when a declared primary-key column
/// does not exist among the table's columns.
pub fn build_table_fns(
    table: &TableDescriptor,
    config: &GenerationConfig,
    create_struct: Struct<'_>,
    update_struct: Struct<'_>,
) -> (r: Result<String, GenerationError>)
    requires
        create_struct.wf(),
        update_struct.wf(),
        create_struct.ty is Create,
        update_struct.ty is Update,
        *create_struct.table == *table,
        *update_struct.table == *table,
        *create_struct.opts == config.options,
        *update_struct.opts == config.options,
    ensures
        r is Ok <==> pks_exist(*table),
        r matches Ok(v) ==> v@ == table_fns_text(*table, *config),
        r matches Err(e) ==> e == GenerationError::PrimaryKeyColumnNotFound,
{
    let param_items = match pk_param_items(table) {
        Ok(v) => v,
        Err(e) => {
            return Err(e);
        },
    };
    let item_id_params = join_strings(&param_items, ", ");
    let filter_items = pk_filter_items(table);
    let item_id_filters = join_strings(&filter_items, ".");

    let mut buffer: String = if config.options.tsync {
        "#[tsync::tsync]"
    } else {
        ""
    }.to_owned();
    buffer.append(
        "\n#[derive(Serialize)]\npub struct PaginationResult<T> {\n    pub items: Vec<T>,\n    pub total_items: i64,\n    /// 0-based index\n    pub page: i64,\n    pub page_size: i64,\n    pub num_pages: i64,\n}\n",
    );
    assert(buffer@ == pagination_struct_text(config.options.tsync));
    buffer.append("\nimpl ");
    buffer.append(table.struct_name.as_str());
    buffer.append(" {\n");

    let create_part: String = if create_struct.has_fields() {
        let mut c: String = "\n    pub fn create(db: &mut Connection, item: &".to_owned();
        c.append(create_struct.identifier.as_str());
        c.append(") -> QueryResult<Self> {\n        use crate::schema::");
        c.append(table.name.as_str());
        c.append("::dsl::*;\n\n        insert_into(");
        c.append(table.name.as_str());
        c.append(").values(item).get_result::<Self>(db)\n    }\n");
        c
    } else {
        let mut c: String =
            "\n    pub fn create(db: &mut Connection) -> QueryResult<Self> {\n        use crate::schema::".to_owned();
        c.append(table.name.as_str());
        c.append("::dsl::*;\n\n        insert_into(");
        c.append(table.name.as_str());
        c.append(").default_values().get_result::<Self>(db)\n    }\n");
        c
    };
    assert(create_part@ == create_fn_text(*table, config.options));
    buffer.append(create_part.as_str());

    let mut read_part: String = "\n    pub fn read(db: &mut Connection, ".to_owned();
    read_part.append(item_id_params.as_str());
    read_part.append(") -> QueryResult<Self> {\n        use crate::schema::");
    read_part.append(table.name.as_str());
    read_part.append("::dsl::*;\n\n        ");
    read_part.append(table.name.as_str());
    read_part.append(".");
    read_part.append(item_id_filters.as_str());
    read_part.append(".first::<Self>(db)\n    }\n");
    assert(read_part@ == read_fn_text(*table));
    buffer.append(read_part.as_str());

    let mut pag: String =
        "\n    /// Paginates through the table where page is a 0-based index (i.e. page 0 is the first page)\n    pub fn paginate(db: &mut Connection, page: i64, page_size: i64) -> QueryResult<PaginationResult<Self>> {\n        use crate::schema::".to_owned();
    pag.append(table.name.as_str());
    pag.append(
        "::dsl::*;\n\n        let page_size = if page_size < 1 { 1 } else { page_size };\n        let total_items = ",
    );
    pag.append(table.name.as_str());
    pag.append(".count().get_result(db)?;\n        let items = ");
    pag.append(table.name.as_str());
    pag.append(
        ".limit(page_size).offset(page * page_size).load::<Self>(db)?;\n\n        Ok(PaginationResult {\n            items,\n            total_items,\n            page,\n            page_size,\n            /* ceiling division of integers */\n            num_pages: total_items / page_size + i64::from(total_items % page_size != 0)\n        })\n    }\n",
    );
    assert(pag@ == paginate_fn_text(*table));
    buffer.append(pag.as_str());

    let update_part: String = if update_struct.has_fields() {
        let mut u: String = "\n    pub fn update(db: &mut Connection, ".to_owned();
        u.append(item_id_params.as_str());
        u.append(", item: &");
        u.append(update_struct.identifier.as_str());
        u.append(") -> QueryResult<Self> {\n        use crate::schema::");
        u.append(table.name.as_str());
        u.append("::dsl::*;\n\n        diesel::update(");
        u.append(table.name.as_str());
        u.append(".");
        u.append(item_id_filters.as_str());
        u.append(").set(item).get_result(db)\n    }\n");
        u
    } else {
        "".to_owned()
    };
    assert(update_part@ == update_section_text(*table, config.options));
    buffer.append(update_part.as_str());

    let mut del: String = "\n    pub fn delete(db: &mut Connection, ".to_owned();
    del.append(item_id_params.as_str());
    del.append(") -> QueryResult<usize> {\n        use crate::schema::");
    del.append(table.name.as_str());
    del.append("::dsl::*;\n\n        diesel::delete(");
    del.append(table.name.as_str());
    del.append(".");
    del.append(item_id_filters.as_str());
    del.append(").execute(db)\n    }\n");
    assert(del@ == delete_fn_text(*table));
    buffer.append(del.as_str());

    buffer.append("\n}");
    Ok(buffer)
}

/// The complete generated source for one table: header, imports, the three
/// record types and the operations block. Fails exactly when a declared
/// primary-key column does not exist among the table's columns.
pub fn generate_for_table(table: &TableDescriptor, config: &GenerationConfig) -> (r: Result<
    String,
    GenerationError,
>)
    ensures
        r is Ok <==> pks_exist(*table),
        r matches Ok(v) ==> v@ == file_text(*table, *config),
        r matches Err(e) ==> e == GenerationError::PrimaryKeyColumnNotFound,
{
    let read_struct = Struct::new(StructType::Read, table, config);
    let update_struct = Struct::new(StructType::Update, table, config);
    let create_struct = Struct::new(StructType::Create, table, config);

    let mut structs: String = read_struct.code().to_owned();
    structs.append("\n");
    structs.append(create_struct.code());
    structs.append("\n");
    structs.append(update_struct.code());
    assert(structs@ == structs_text(*table, config.options));

    let imports = build_imports(table, config);
    let functions = match build_table_fns(table, config, create_struct, update_struct) {
        Ok(s) => s,
        Err(e) => {
            return Err(e);
        },
    };

    let mut out: String =
        "/* Managed data-access code for this table. Edit the schema, not this file. */".to_owned();
    out.append("\n\n");
    out.append(imports.as_str());
    out.append("\n");
    out.append(structs.as_str());
    out.append("\n");
    out.append(functions.as_str());
    Ok(out)
}

} // verus!
