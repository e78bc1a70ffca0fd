use model_derive::decl::{resolve_key, simple_type_name, Declaration, RecordField, PathSegment, Shape, TypeExpr};
use model_derive::error::ModelError;
use model_derive::markers::{chars_of, get_id_field, get_table_name, identifier};
use model_derive::ops::{emit, generate, model, OperationKind, OperationSet, DEFAULT_KEY_TYPE};
use model_derive::inspect::inspect;
use model_derive::text::{find_marker_line, is_white_char, trimmed_starts_with};

fn named(name: &str) -> TypeExpr {
    TypeExpr::Path(vec![PathSegment { ident: name.to_string(), has_arguments: false }])
}

fn generic(name: &str) -> TypeExpr {
    TypeExpr::Path(vec![PathSegment { ident: name.to_string(), has_arguments: true }])
}

fn field(name: &str, ty: TypeExpr) -> RecordField {
    RecordField { name: name.to_string(), ty }
}

fn record(name: &str, fields: Vec<RecordField>) -> Declaration {
    Declaration { name: name.to_string(), shape: Shape::Record(fields) }
}

fn chars(s: &str) -> Vec<char> {
    s.chars().collect()
}

fn assert_four_operations(set: &OperationSet) {
    let names: Vec<&str> = set.operations.iter().map(|o| o.name.as_str()).collect();
    assert_eq!(names, vec!["find", "save", "all", "destroy"]);
    let kinds: Vec<OperationKind> = set.operations.iter().map(|o| o.kind).collect();
    assert_eq!(kinds, vec![OperationKind::Find, OperationKind::Save, OperationKind::All, OperationKind::Destroy]);
}

#[test]
fn widget_defaults_to_id_key() {
    let decl = record("Widget", vec![field("id", named("i32")), field("name", named("String"))]);
    let src = "#[derive(Model)]\n#[table_name = \"widgets\"]\nstruct Widget {\n    id: i32,\n    name: String,\n}\n";
    let set = generate(&decl, src, "i16").unwrap();
    assert_eq!(set.record_name, "Widget");
    assert_eq!(set.table_name, "widgets");
    assert_eq!(set.key_field, "id");
    assert_eq!(set.key_type, "i32");
    assert_four_operations(&set);
    let find = &set.operations[0];
    assert_eq!(find.table.as_deref(), Some("widgets"));
    assert_eq!(find.filter_column.as_deref(), Some("id"));
}

#[test]
fn order_uses_marked_key_field() {
    let decl = record("Order", vec![field("order_ref", named("String"))]);
    let src = "#[derive(Model)]\n#[table_name = \"orders\"]\n#[model_id = \"order_ref\"]\nstruct Order {\n    order_ref: String,\n}\n";
    let set = generate(&decl, src, "i16").unwrap();
    assert_eq!(set.table_name, "orders");
    assert_eq!(set.key_field, "order_ref");
    assert_eq!(set.key_type, "String");
    assert_eq!(set.operations[3].filter_column.as_deref(), Some("order_ref"));
}

#[test]
fn ghost_absent_key_field_gets_default_type() {
    let decl = record("Ghost", vec![field("payload", generic("Vec"))]);
    let src = "#[table_name = \"ghosts\"]\n#[model_id = \"owner_id\"]\nstruct Ghost {\n    payload: Vec<u8>,\n}\n";
    let set = generate(&decl, src, "i16").unwrap();
    assert_eq!(set.table_name, "ghosts");
    assert_eq!(set.key_field, "owner_id");
    assert_eq!(set.key_type, "i16");
    assert_four_operations(&set);
}

#[test]
fn configurable_default_key_type() {
    let decl = record("Ghost", vec![field("payload", generic("Vec"))]);
    let src = "#[table_name = \"ghosts\"]\n#[model_id = \"owner_id\"]\n";
    let set = generate(&decl, src, "i64").unwrap();
    assert_eq!(set.key_type, "i64");
}

#[test]
fn generic_key_field_keeps_default_type() {
    let decl = record("Blob", vec![field("id", generic("Vec"))]);
    let set = generate(&decl, "#[table_name = \"blobs\"]\n", "i16").unwrap();
    assert_eq!(set.key_field, "id");
    assert_eq!(set.key_type, "i16");
}

#[test]
fn non_path_key_field_keeps_default_type() {
    let decl = record("Blob", vec![field("id", TypeExpr::Other)]);
    let set = generate(&decl, "#[table_name = \"blobs\"]\n", "i16").unwrap();
    assert_eq!(set.key_type, "i16");
}

#[test]
fn four_operations_without_fields() {
    let decl = record("Empty", vec![]);
    let set = generate(&decl, "#[table_name = \"empties\"]", "i16").unwrap();
    assert_eq!(set.key_field, "id");
    assert_eq!(set.key_type, "i16");
    assert_four_operations(&set);
    assert_eq!(set.operations[1].table, None);
    assert_eq!(set.operations[2].table.as_deref(), Some("empties"));
    assert_eq!(set.operations[2].filter_column, None);
}

#[test]
fn field_order_does_not_change_operations() {
    let a = record("R", vec![field("id", named("i64")), field("x", named("u8"))]);
    let b = record("R", vec![field("x", named("u8")), field("id", named("i64"))]);
    let src = "#[table_name = \"rs\"]";
    let sa = generate(&a, src, "i16").unwrap();
    let sb = generate(&b, src, "i16").unwrap();
    assert_four_operations(&sa);
    assert_four_operations(&sb);
    assert_eq!(sa.key_type, "i64");
    assert_eq!(sb.key_type, "i64");
}

#[test]
fn missing_table_name_fails() {
    let decl = record("Widget", vec![field("id", named("i32"))]);
    assert_eq!(generate(&decl, "struct Widget { id: i32 }", "i16").unwrap_err(), ModelError::MissingTableName);
}

#[test]
fn malformed_table_name_fails() {
    let decl = record("Widget", vec![field("id", named("i32"))]);
    assert_eq!(generate(&decl, "#[table_name = widgets]\n", "i16").unwrap_err(), ModelError::MalformedTableName);
}

#[test]
fn malformed_key_field_fails() {
    let decl = record("Widget", vec![field("id", named("i32"))]);
    let src = "#[table_name = \"widgets\"]\n#[model_id(id)]\n";
    assert_eq!(generate(&decl, src, "i16").unwrap_err(), ModelError::MalformedKeyField);
}

#[test]
fn enum_union_and_tuple_fail() {
    let src = "#[table_name = \"widgets\"]\n";
    let e = Declaration { name: "E".to_string(), shape: Shape::Enum };
    let u = Declaration { name: "U".to_string(), shape: Shape::Union };
    let t = Declaration { name: "T".to_string(), shape: Shape::Tuple };
    assert_eq!(generate(&e, src, "i16").unwrap_err(), ModelError::EnumInput);
    assert_eq!(generate(&u, src, "i16").unwrap_err(), ModelError::UnionInput);
    assert_eq!(generate(&t, src, "i16").unwrap_err(), ModelError::TupleInput);
}

#[test]
fn shape_error_comes_before_marker_errors() {
    let e = Declaration { name: "E".to_string(), shape: Shape::Enum };
    assert_eq!(generate(&e, "", "i16").unwrap_err(), ModelError::EnumInput);
}

#[test]
fn key_marker_error_comes_before_table_error() {
    let decl = record("W", vec![]);
    assert_eq!(generate(&decl, "#[model_id]\n", "i16").unwrap_err(), ModelError::MalformedKeyField);
}

#[test]
fn id_field_forms() {
    assert_eq!(get_id_field("struct A;").unwrap(), "id");
    assert_eq!(get_id_field("#[model_id = \"code\"]").unwrap(), "code");
    assert_eq!(get_id_field("#[model_id=\"code\"]").unwrap(), "code");
    assert_eq!(get_id_field("#[model_id_=_\"code\"]").unwrap(), "code");
    assert_eq!(get_id_field("   \t#[model_id = \"code\"]  ").unwrap(), "code");
    assert_eq!(get_id_field("#[model_id = \"code\"]\r\nstruct A;").unwrap(), "code");
}

#[test]
fn only_first_marker_line_counts() {
    let src = "#[model_id = \"first\"]\n#[model_id = \"second\"]\n";
    assert_eq!(get_id_field(src).unwrap(), "first");
    let bad_first = "#[model_id]\n#[model_id = \"second\"]\n";
    assert_eq!(get_id_field(bad_first).unwrap_err(), ModelError::MalformedKeyField);
}

#[test]
fn table_name_forms() {
    assert_eq!(get_table_name("#[table_name = \"things\"]").unwrap(), "things");
    assert_eq!(get_table_name("  #[table_name = \"things\"]\n").unwrap(), "things");
    assert_eq!(get_table_name("").unwrap_err(), ModelError::MissingTableName);
    assert_eq!(get_table_name("#[table_name=\"things\"]").unwrap_err(), ModelError::MissingTableName);
    assert_eq!(get_table_name("x #[table_name = \"things\"]").unwrap_err(), ModelError::MissingTableName);
}

#[test]
fn resolve_key_takes_first_named_field() {
    let fields = vec![field("a", named("u8")), field("key", named("u32")), field("key", named("u64"))];
    let k = resolve_key(&fields, &"key".to_string(), "i16");
    assert_eq!(k.field_name, "key");
    assert_eq!(k.field_type, "u32");
    let absent = resolve_key(&fields, &"zzz".to_string(), "i16");
    assert_eq!(absent.field_type, "i16");
}

#[test]
fn simple_type_names() {
    assert_eq!(simple_type_name(&named("i32")).as_deref(), Some("i32"));
    assert_eq!(simple_type_name(&generic("Vec")), None);
    assert_eq!(simple_type_name(&TypeExpr::Other), None);
    let qualified = TypeExpr::Path(vec![
        PathSegment { ident: "std".to_string(), has_arguments: false },
        PathSegment { ident: "String".to_string(), has_arguments: false },
    ]);
    assert_eq!(simple_type_name(&qualified), None);
}

#[test]
fn emit_binds_identifiers() {
    let key = model_derive::decl::ResolvedKey { field_name: "sku".to_string(), field_type: "u64".to_string() };
    let set = emit(&"Item".to_string(), &"items".to_string(), key);
    assert_four_operations(&set);
    assert_eq!(set.record_name, "Item");
    assert_eq!(set.key_type, "u64");
    assert_eq!(set.operations[0].filter_column.as_deref(), Some("sku"));
    assert_eq!(set.operations[3].table.as_deref(), Some("items"));
}

#[test]
fn white_space_chars() {
    assert!(is_white_char(' '));
    assert!(is_white_char('\t'));
    assert!(is_white_char('\u{a0}'));
    assert!(is_white_char('\u{3000}'));
    assert!(!is_white_char('#'));
    assert!(!is_white_char('\u{200b}'));
    for c in ['\u{0}', 'a', ' ', '\n', '\u{85}', '\u{1680}', '\u{2007}', '\u{200b}', '\u{feff}', '\u{3000}'] {
        assert_eq!(is_white_char(c), c.is_whitespace());
    }
}

#[test]
fn trimmed_prefix() {
    assert!(trimmed_starts_with(&chars("  \t#[x"), &chars("#[")));
    assert!(!trimmed_starts_with(&chars("a #[x"), &chars("#[")));
    assert!(!trimmed_starts_with(&chars("  #"), &chars("#[")));
    assert!(trimmed_starts_with(&chars(""), &chars("")));
}

#[test]
fn marker_line_search() {
    let src = chars("a\n  #[t = 1]\r\n#[t = 2]\n");
    assert_eq!(find_marker_line(&src, &chars("#[t")), Some(chars("  #[t = 1]")));
    assert_eq!(find_marker_line(&src, &chars("#[u")), None);
    assert_eq!(find_marker_line(&chars(""), &chars("#[t")), None);
    assert_eq!(find_marker_line(&chars("x\n\n#[t]"), &chars("#[t")), Some(chars("#[t]")));
}

#[test]
fn widget_from_text() {
    let src = "#[derive(Model)]\n#[table_name = \"widgets\"]\npub struct Widget {\n    pub id: i32,\n    pub name: String,\n}\n";
    let set = model(src).unwrap();
    assert_eq!(set.record_name, "Widget");
    assert_eq!(set.table_name, "widgets");
    assert_eq!(set.key_field, "id");
    assert_eq!(set.key_type, "i32");
    assert_four_operations(&set);
    assert_eq!(set.operations[0].table.as_deref(), Some("widgets"));
    assert_eq!(set.operations[0].filter_column.as_deref(), Some("id"));
}

#[test]
fn order_from_text() {
    let src = "#[table_name = \"orders\"]\n#[model_id = \"order_ref\"]\nstruct Order {\n    order_ref: String,\n}\n";
    let set = model(src).unwrap();
    assert_eq!(set.record_name, "Order");
    assert_eq!(set.key_field, "order_ref");
    assert_eq!(set.key_type, "String");
}

#[test]
fn ghost_from_text() {
    let src = "#[table_name = \"ghosts\"]\n#[model_id = \"owner_id\"]\nstruct Ghost {\n    payload: Vec<u8>,\n}\n";
    let set = model(src).unwrap();
    assert_eq!(set.key_field, "owner_id");
    assert_eq!(set.key_type, DEFAULT_KEY_TYPE);
    assert_eq!(set.key_type, "i16");
}

#[test]
fn text_errors() {
    assert_eq!(model("#[table_name = \"e\"]\nenum E { A, B }\n").unwrap_err(), ModelError::EnumInput);
    assert_eq!(model("#[table_name = \"u\"]\nunion U { a: u8, b: i8 }\n").unwrap_err(), ModelError::UnionInput);
    assert_eq!(model("#[table_name = \"t\"]\nstruct T(i32);\n").unwrap_err(), ModelError::TupleInput);
    assert_eq!(model("struct W { id: i32 }\n").unwrap_err(), ModelError::MissingTableName);
    assert_eq!(model("#[table_name = w]\nstruct W { id: i32 }\n").unwrap_err(), ModelError::MalformedTableName);
    assert_eq!(model("#[table_name = \"w\"]\n#[model_id(id)]\nstruct W { id: i32 }\n").unwrap_err(), ModelError::MalformedKeyField);
    assert_eq!(model("fn f() {}").unwrap_err(), ModelError::Unparsable);
    assert_eq!(model("").unwrap_err(), ModelError::Unparsable);
}

#[test]
fn inspect_reads_fields() {
    let decl = inspect("struct P { a: u8, b: Vec<u8>, c: &'static str, d: std::string::String, e: <T as X>::Y }").unwrap();
    assert_eq!(decl.name, "P");
    let fields = match decl.shape {
        Shape::Record(f) => f,
        other => panic!("not a record: {:?}", other),
    };
    let names: Vec<&str> = fields.iter().map(|f| f.name.as_str()).collect();
    assert_eq!(names, vec!["a", "b", "c", "d", "e"]);
    let simple: Vec<Option<String>> = fields.iter().map(|f| simple_type_name(&f.ty)).collect();
    assert_eq!(simple, vec![Some("u8".to_string()), None, None, None, None]);
    match &fields[1].ty {
        TypeExpr::Path(segs) => {
            assert_eq!(segs.len(), 1);
            assert_eq!(segs[0].ident, "Vec");
            assert!(segs[0].has_arguments);
        }
        TypeExpr::Other => panic!("Vec<u8> is a path"),
    }
    assert!(matches!(fields[2].ty, TypeExpr::Other));
    assert!(matches!(fields[4].ty, TypeExpr::Other));
}

#[test]
fn inspect_shapes() {
    assert!(matches!(inspect("struct U;").unwrap().shape, Shape::Record(ref f) if f.is_empty()));
    assert!(matches!(inspect("struct T(u8);").unwrap().shape, Shape::Tuple));
    assert!(matches!(inspect("enum E { A }").unwrap().shape, Shape::Enum));
    assert!(matches!(inspect("union U { a: u8 }").unwrap().shape, Shape::Union));
    assert!(inspect("not rust at all").is_none());
}

#[test]
fn non_identifier_table_name_fails() {
    assert_eq!(get_table_name("#[table_name = \"a-b\"]").unwrap_err(), ModelError::MalformedTableName);
    assert_eq!(get_table_name("#[table_name = \"\"]").unwrap_err(), ModelError::MalformedTableName);
    assert_eq!(get_table_name("#[table_name = \" a \"]").unwrap_err(), ModelError::MalformedTableName);
    let src = "#[table_name = \"a-b\"]\nstruct W { id: i32 }\n";
    assert_eq!(model(src).unwrap_err(), ModelError::MalformedTableName);
}

#[test]
fn non_identifier_key_field_fails() {
    assert_eq!(get_id_field("#[model_id = \"1x\"]").unwrap_err(), ModelError::MalformedKeyField);
    assert_eq!(get_id_field("#[model_id = \"a b\"]").unwrap_err(), ModelError::MalformedKeyField);
    let src = "#[table_name = \"ws\"]\n#[model_id = \"two words\"]\nstruct W { id: i32 }\n";
    assert_eq!(model(src).unwrap_err(), ModelError::MalformedKeyField);
}

#[test]
fn identifiers() {
    assert!(identifier(&"widgets".to_string()));
    assert!(identifier(&"_x1".to_string()));
    assert!(!identifier(&"a-b".to_string()));
    assert!(!identifier(&"".to_string()));
    assert!(!identifier(&"123".to_string()));
    assert!(!identifier(&" a".to_string()));
    assert!(!identifier(&"struct".to_string()));
}

#[test]
fn chars_in_order() {
    assert_eq!(chars_of("a\u{e9}\n\u{3000}b"), vec!['a', '\u{e9}', '\n', '\u{3000}', 'b']);
    assert_eq!(chars_of(""), Vec::<char>::new());
}

#[test]
fn inspect_keeps_field_order() {
    let decl = inspect("#[table_name = \"r\"]\nstruct R { z: u8, a: i64 }").unwrap();
    match decl.shape {
        Shape::Record(f) => {
            assert_eq!(f[0].name, "z");
            assert_eq!(f[1].name, "a");
            assert_eq!(simple_type_name(&f[1].ty).as_deref(), Some("i64"));
        }
        other => panic!("not a record: {:?}", other),
    }
}
