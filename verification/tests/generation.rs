use dsync::code::{build_table_fns, effective_page_size, generate_for_table, num_pages, Struct};
use dsync::descriptor::{
    Column, ForeignKey, GenerationConfig, GenerationError, TableDescriptor, TableOptions,
};
use dsync::fields::StructType;

fn col(name: &str, ty: &str, is_nullable: bool) -> Column {
    Column { name: name.to_string(), ty: ty.to_string(), is_nullable }
}

fn options(autogenerated: &[&str], tsync: bool) -> TableOptions {
    TableOptions {
        autogenerated_columns: autogenerated.iter().map(|s| s.to_string()).collect(),
        tsync,
    }
}

fn config(autogenerated: &[&str], tsync: bool) -> GenerationConfig {
    GenerationConfig {
        connection_type: "diesel::pg::PgConnection".to_string(),
        options: options(autogenerated, tsync),
    }
}

/// `posts`: autogenerated primary key `id`, a plain column and a nullable one.
fn posts_table() -> TableDescriptor {
    TableDescriptor {
        name: "posts".to_string(),
        struct_name: "Post".to_string(),
        columns: vec![
            col("id", "i32", false),
            col("title", "String", false),
            col("body", "String", true),
        ],
        primary_key_columns: vec!["id".to_string()],
        foreign_keys: vec![],
    }
}

/// `post_tags`: a pure join table whose two key columns are database-managed.
fn post_tags_table() -> TableDescriptor {
    TableDescriptor {
        name: "post_tags".to_string(),
        struct_name: "PostTag".to_string(),
        columns: vec![col("post_id", "i32", false), col("tag_id", "i32", false)],
        primary_key_columns: vec!["post_id".to_string(), "tag_id".to_string()],
        foreign_keys: vec![],
    }
}

#[test]
fn struct_type_naming() {
    assert_eq!(StructType::Read.prefix(), "");
    assert_eq!(StructType::Read.suffix(), "");
    assert_eq!(StructType::Form.prefix(), "");
    assert_eq!(StructType::Form.suffix(), "Form");
    assert_eq!(StructType::Update.prefix(), "Update");
    assert_eq!(StructType::Update.suffix(), "");
    assert_eq!(StructType::Create.prefix(), "Create");
    assert_eq!(StructType::Create.suffix(), "");
    assert_eq!(StructType::Read.format("Post"), "Post");
    assert_eq!(StructType::Form.format("Post"), "PostForm");
    assert_eq!(StructType::Update.format("Post"), "UpdatePost");
    assert_eq!(StructType::Create.format("Post"), "CreatePost");
}

#[test]
fn update_variant_excludes_pk_and_forces_optional() {
    let table = posts_table();
    let cfg = config(&["id"], false);
    let s = Struct::new(StructType::Update, &table, &cfg);
    let fields = s.fields();
    let names: Vec<&str> = fields.iter().map(|f| f.name.as_str()).collect();
    assert_eq!(names, vec!["title", "body"]);
    assert!(fields.iter().all(|f| f.is_optional));
}

#[test]
fn create_variant_excludes_exactly_autogenerated() {
    let table = posts_table();
    let cfg = config(&["id"], false);
    let s = Struct::new(StructType::Create, &table, &cfg);
    let fields = s.fields();
    let names: Vec<&str> = fields.iter().map(|f| f.name.as_str()).collect();
    assert_eq!(names, vec!["title", "body"]);
    assert!(fields.iter().all(|f| !f.is_optional));
}

#[test]
fn read_variant_keeps_every_column() {
    let table = posts_table();
    let cfg = config(&["id"], false);
    let s = Struct::new(StructType::Read, &table, &cfg);
    let fields = s.fields();
    let names: Vec<&str> = fields.iter().map(|f| f.name.as_str()).collect();
    assert_eq!(names, vec!["id", "title", "body"]);
    assert!(fields.iter().all(|f| !f.is_optional));
    assert_eq!(fields[2].base_type, "Option<String>");
}

#[test]
fn nullable_update_field_has_single_optional_layer() {
    let table = posts_table();
    let cfg = config(&["id"], false);
    let s = Struct::new(StructType::Update, &table, &cfg);
    let code = s.code().to_string();
    assert!(code.contains("    pub body: Option<String>,\n"));
    assert!(code.contains("    pub title: Option<String>,\n"));
    assert!(!code.contains("Option<Option<"));
}

#[test]
fn posts_end_to_end() {
    let table = posts_table();
    let cfg = config(&["id"], false);
    let out = generate_for_table(&table, &cfg).unwrap();

    let mut expected = String::new();
    for part in [
        "/* Managed data-access code for this table. Edit the schema, not this file. */",
        "\n\n",
        "use crate::diesel::*;\nuse crate::schema::*;\nuse diesel::QueryResult;\n",
        "use serde::{Deserialize, Serialize};\n",
        "\n\ntype Connection = diesel::pg::PgConnection;\n",
        "\n",
        "#[derive(Debug, Serialize, Deserialize, Clone, Queryable, Insertable, AsChangeset)]\n",
        "#[diesel(table_name=posts, primary_key(id))]\n",
        "pub struct Post {\n    pub id: i32,\n    pub title: String,\n    pub body: Option<String>,\n}\n",
        "\n",
        "#[derive(Debug, Serialize, Deserialize, Clone, Queryable, Insertable, AsChangeset)]\n",
        "#[diesel(table_name=posts)]\n",
        "pub struct CreatePost {\n    pub title: String,\n    pub body: Option<String>,\n}\n",
        "\n",
        "#[derive(Debug, Serialize, Deserialize, Clone, Queryable, Insertable, AsChangeset)]\n",
        "#[diesel(table_name=posts)]\n",
        "pub struct UpdatePost {\n    pub title: Option<String>,\n    pub body: Option<String>,\n}\n",
        "\n",
        "\n#[derive(Serialize)]\npub struct PaginationResult<T> {\n    pub items: Vec<T>,\n",
        "    pub total_items: i64,\n    /// 0-based index\n    pub page: i64,\n",
        "    pub page_size: i64,\n    pub num_pages: i64,\n}\n",
        "\nimpl Post {\n",
        "\n    pub fn create(db: &mut Connection, item: &CreatePost) -> QueryResult<Self> {\n",
        "        use crate::schema::posts::dsl::*;\n\n",
        "        insert_into(posts).values(item).get_result::<Self>(db)\n    }\n",
        "\n    pub fn read(db: &mut Connection, param_id: i32) -> QueryResult<Self> {\n",
        "        use crate::schema::posts::dsl::*;\n\n",
        "        posts.filter(id.eq(param_id)).first::<Self>(db)\n    }\n",
        "\n    /// Paginates through the table where page is a 0-based index (i.e. page 0 is the first page)\n",
        "    pub fn paginate(db: &mut Connection, page: i64, page_size: i64) -> QueryResult<PaginationResult<Self>> {\n",
        "        use crate::schema::posts::dsl::*;\n\n",
        "        let page_size = if page_size < 1 { 1 } else { page_size };\n",
        "        let total_items = posts.count().get_result(db)?;\n",
        "        let items = posts.limit(page_size).offset(page * page_size).load::<Self>(db)?;\n\n",
        "        Ok(PaginationResult {\n            items,\n            total_items,\n            page,\n",
        "            page_size,\n            /* ceiling division of integers */\n",
        "            num_pages: total_items / page_size + i64::from(total_items % page_size != 0)\n",
        "        })\n    }\n",
        "\n    pub fn update(db: &mut Connection, param_id: i32, item: &UpdatePost) -> QueryResult<Self> {\n",
        "        use crate::schema::posts::dsl::*;\n\n",
        "        diesel::update(posts.filter(id.eq(param_id))).set(item).get_result(db)\n    }\n",
        "\n    pub fn delete(db: &mut Connection, param_id: i32) -> QueryResult<usize> {\n",
        "        use crate::schema::posts::dsl::*;\n\n",
        "        diesel::delete(posts.filter(id.eq(param_id))).execute(db)\n    }\n",
        "\n}",
    ] {
        expected.push_str(part);
    }
    assert_eq!(out, expected);
}

#[test]
fn join_table_end_to_end() {
    // Both key columns are database-managed, so the create shape is empty
    // and inserts use the default-values form; the update shape is empty,
    // so no update operation is emitted.
    let table = post_tags_table();
    let cfg = config(&["post_id", "tag_id"], false);
    let out = generate_for_table(&table, &cfg).unwrap();

    assert!(out.contains("pub struct PostTag {\n"));
    assert!(!out.contains("pub struct CreatePostTag"));
    assert!(!out.contains("pub struct UpdatePostTag"));
    assert!(out.contains("\n    pub fn create(db: &mut Connection) -> QueryResult<Self> {\n"));
    assert!(out.contains("insert_into(post_tags).default_values()"));
    assert!(!out.contains("pub fn update"));
    assert!(out.contains(
        "pub fn read(db: &mut Connection, param_post_id: i32, param_tag_id: i32) -> QueryResult<Self>"
    ));
    assert!(out.contains(
        "pub fn delete(db: &mut Connection, param_post_id: i32, param_tag_id: i32) -> QueryResult<usize>"
    ));
}

#[test]
fn composite_key_filters_in_declared_order() {
    let table = post_tags_table();
    let cfg = config(&[], false);
    let out = generate_for_table(&table, &cfg).unwrap();
    assert!(out.contains(
        "post_tags.filter(post_id.eq(param_post_id)).filter(tag_id.eq(param_tag_id)).first::<Self>(db)"
    ));
    assert!(out.contains(
        "diesel::delete(post_tags.filter(post_id.eq(param_post_id)).filter(tag_id.eq(param_tag_id))).execute(db)"
    ));
    assert!(out.contains(", primary_key(post_id,tag_id)"));
}

#[test]
fn join_table_read_shape_omits_partial_update_capability() {
    // Every selected field of the read shape is a key column, so the
    // partial-update capability is left off the annotation line.
    let table = post_tags_table();
    let cfg = config(&[], false);
    let s = Struct::new(StructType::Read, &table, &cfg);
    assert_eq!(
        s.attr_derive(),
        "#[derive(Debug, Serialize, Deserialize, Clone, Queryable, Insertable)]"
    );
    let posts = posts_table();
    let posts_cfg = config(&["id"], false);
    let p = Struct::new(StructType::Read, &posts, &posts_cfg);
    assert_eq!(
        p.attr_derive(),
        "#[derive(Debug, Serialize, Deserialize, Clone, Queryable, Insertable, AsChangeset)]"
    );
}

#[test]
fn form_variant_behaves_like_read() {
    let table = posts_table();
    let cfg = config(&["id"], false);
    let form = Struct::new(StructType::Form, &table, &cfg);
    let read = Struct::new(StructType::Read, &table, &cfg);
    let form_fields = form.fields();
    let read_fields = read.fields();
    assert_eq!(form_fields.len(), read_fields.len());
    for (f, r) in form_fields.iter().zip(read_fields.iter()) {
        assert_eq!(f.name, r.name);
        assert_eq!(f.base_type, r.base_type);
        assert_eq!(f.is_optional, r.is_optional);
    }
}

#[test]
fn has_fields_matches_selection() {
    let table = post_tags_table();
    let cfg = config(&["post_id", "tag_id"], false);
    assert!(Struct::new(StructType::Read, &table, &cfg).has_fields());
    assert!(!Struct::new(StructType::Create, &table, &cfg).has_fields());
    assert!(!Struct::new(StructType::Update, &table, &cfg).has_fields());
    let empty_code = Struct::new(StructType::Update, &table, &cfg);
    assert_eq!(empty_code.code(), "");
}

#[test]
fn update_emitted_iff_update_fields_exist() {
    let table = posts_table();
    let cfg = config(&["id"], false);
    let create_struct = Struct::new(StructType::Create, &table, &cfg);
    let update_struct = Struct::new(StructType::Update, &table, &cfg);
    let fns = build_table_fns(&table, &cfg, create_struct, update_struct).unwrap();
    assert!(fns.contains("pub fn update(db: &mut Connection, param_id: i32, item: &UpdatePost)"));

    let join = post_tags_table();
    let join_cfg = config(&[], false);
    let join_create = Struct::new(StructType::Create, &join, &join_cfg);
    let join_update = Struct::new(StructType::Update, &join, &join_cfg);
    let join_fns = build_table_fns(&join, &join_cfg, join_create, join_update).unwrap();
    assert!(!join_fns.contains("pub fn update"));
}

#[test]
fn foreign_keys_shape_imports_and_clauses() {
    let mut table = posts_table();
    table.name = "comments".to_string();
    table.struct_name = "Comment".to_string();
    table.foreign_keys = vec![
        ForeignKey {
            referenced_table: "blog_posts".to_string(),
            join_column: "post_id".to_string(),
        },
        ForeignKey { referenced_table: "Users".to_string(), join_column: "user_id".to_string() },
    ];
    let cfg = config(&["id"], false);
    let out = generate_for_table(&table, &cfg).unwrap();
    assert!(out.contains("use crate::models::blog_posts::BlogPost;\nuse crate::models::users::User;\n"));
    assert!(out.contains(
        "#[diesel(table_name=comments, primary_key(id), belongs_to(BlogPost, foreign_key=post_id) , belongs_to(User, foreign_key=user_id))]"
    ));
    assert!(out.contains(", Identifiable, Associations)]"));
}

#[test]
fn secondary_annotation_toggle() {
    let table = posts_table();
    let cfg = config(&["id"], true);
    let out = generate_for_table(&table, &cfg).unwrap();
    assert!(out.contains("#[tsync::tsync]\n#[derive(Debug, Serialize"));
    assert!(out.contains("#[tsync::tsync]\n#[derive(Serialize)]\npub struct PaginationResult"));
    let plain = generate_for_table(&table, &config(&["id"], false)).unwrap();
    assert!(!plain.contains("tsync"));
    assert_eq!(Struct::new(StructType::Read, &table, &cfg).attr_tsync(), "#[tsync::tsync]\n");
    let off = config(&["id"], false);
    assert_eq!(Struct::new(StructType::Read, &table, &off).attr_tsync(), "");
}

#[test]
fn missing_primary_key_column_is_an_error() {
    let mut table = posts_table();
    table.primary_key_columns = vec!["missing".to_string()];
    let cfg = config(&["id"], false);
    let err = generate_for_table(&table, &cfg).unwrap_err();
    assert_eq!(err, GenerationError::PrimaryKeyColumnNotFound);
}

#[test]
fn pagination_page_counts() {
    assert_eq!(num_pages(0, 5), 0);
    assert_eq!(num_pages(10, 3), 4);
    assert_eq!(num_pages(9, 3), 3);
    assert_eq!(num_pages(1, 3), 1);
    assert_eq!(num_pages(10, 0), 10);
    assert_eq!(effective_page_size(0), 1);
    assert_eq!(effective_page_size(-5), 1);
    assert_eq!(effective_page_size(7), 7);
}
