use tapioca_infer::infer::{infer_scalar, infer_type, ref_name};
use tapioca_infer::method::{infer_method, query_param_struct_ident, valid, Verb};
use tapioca_infer::path::{fn_ident, infer_path, struct_ident};
use tapioca_infer::schema::infer_v3;
use tapioca_infer::types::{ErrorKind, Registry, TypeRef};
use tapioca_infer::value::Value;

fn s(t: &str) -> Value {
    Value::Str(t.to_string())
}

fn map(entries: Vec<(&str, Value)>) -> Value {
    Value::Mapping(entries.into_iter().map(|(k, v)| (s(k), v)).collect())
}

fn scalar(kind: &str, format: Option<&str>) -> Value {
    match format {
        Some(f) => map(vec![("type", s(kind)), ("format", s(f))]),
        None => map(vec![("type", s(kind))]),
    }
}

fn object(props: Vec<(&str, Value)>, required: Vec<&str>) -> Value {
    map(vec![
        ("type", s("object")),
        ("required", Value::List(required.into_iter().map(s).collect())),
        ("properties", map(props)),
    ])
}

fn query_param(name: &str, schema: Value) -> Value {
    map(vec![("name", s(name)), ("in", s("query")), ("schema", schema)])
}

fn empty_registry() -> Registry {
    Registry { defs: Vec::new() }
}

fn infer_ok(node: &Value, reg: &mut Registry) -> TypeRef {
    match infer_type(reg, node) {
        Ok(t) => t.type_ref,
        Err(e) => panic!("unexpected error {:?}", e.kind),
    }
}

fn infer_err(node: &Value) -> ErrorKind {
    let mut reg = empty_registry();
    match infer_type(&mut reg, node) {
        Ok(_) => panic!("expected an error"),
        Err(e) => e.kind,
    }
}

#[test]
fn scalar_table_accepts_known_pairs() {
    let mut reg = empty_registry();
    assert!(matches!(infer_ok(&scalar("integer", Some("int32")), &mut reg), TypeRef::Int32));
    assert!(matches!(infer_ok(&scalar("integer", Some("int64")), &mut reg), TypeRef::Int64));
    assert!(matches!(infer_ok(&scalar("number", Some("float")), &mut reg), TypeRef::Float32));
    assert!(matches!(infer_ok(&scalar("number", Some("double")), &mut reg), TypeRef::Float64));
    assert!(matches!(infer_ok(&scalar("string", None), &mut reg), TypeRef::Text));
    assert!(matches!(infer_ok(&scalar("string", Some("password")), &mut reg), TypeRef::Text));
    assert!(matches!(infer_ok(&scalar("string", Some("uuid")), &mut reg), TypeRef::Text));
    assert!(matches!(infer_ok(&scalar("string", Some("byte")), &mut reg), TypeRef::Base64));
    assert!(matches!(infer_ok(&scalar("string", Some("binary")), &mut reg), TypeRef::Bytes));
    assert!(matches!(infer_ok(&scalar("string", Some("date")), &mut reg), TypeRef::Date));
    assert!(matches!(infer_ok(&scalar("string", Some("date-time")), &mut reg), TypeRef::DateTime));
    assert!(matches!(infer_ok(&scalar("boolean", None), &mut reg), TypeRef::Bool));
    assert!(reg.defs.is_empty());
}

#[test]
fn scalar_table_rejects_other_pairs() {
    assert_eq!(infer_err(&scalar("integer", None)), ErrorKind::Type);
    assert_eq!(infer_err(&scalar("integer", Some("int16"))), ErrorKind::Type);
    assert_eq!(infer_err(&scalar("number", None)), ErrorKind::Type);
    assert_eq!(infer_err(&scalar("number", Some("int32"))), ErrorKind::Type);
    assert_eq!(infer_err(&scalar("boolean", Some("int32"))), ErrorKind::Type);
    assert_eq!(infer_err(&scalar("tuple", None)), ErrorKind::Type);
}

#[test]
fn boolean_with_any_format_is_type_error() {
    let numeric = map(vec![("type", s("boolean")), ("format", Value::Int(3))]);
    assert_eq!(infer_err(&numeric), ErrorKind::Type);
    let listed = map(vec![("type", s("boolean")), ("format", Value::List(vec![]))]);
    assert_eq!(infer_err(&listed), ErrorKind::Type);
    let null = map(vec![("type", s("boolean")), ("format", Value::Null)]);
    assert_eq!(infer_err(&null), ErrorKind::Type);
    let numeric_int = map(vec![("type", s("integer")), ("format", Value::Int(32))]);
    assert_eq!(infer_err(&numeric_int), ErrorKind::Type);
}

#[test]
fn unknown_type_error_names_the_type() {
    let mut reg = empty_registry();
    let e = infer_type(&mut reg, &scalar("file", None)).err().unwrap();
    assert_eq!(e.kind, ErrorKind::Type);
    assert_eq!(e.detail, "file");
}

#[test]
fn inner_errors_pass_on_unchanged() {
    let mut reg = empty_registry();
    let array = map(vec![("type", s("array")), ("items", scalar("sound", None))]);
    let e = infer_type(&mut reg, &array).err().unwrap();
    assert_eq!(e.kind, ErrorKind::Type);
    assert_eq!(e.detail, "sound");
    let obj = object(
        vec![("a", scalar("boolean", None)), ("b", scalar("colour", None)), ("c", scalar("shape", None))],
        vec![],
    );
    let e = infer_type(&mut reg, &obj).err().unwrap();
    assert_eq!(e.detail, "colour");
    let doc = map(vec![
        ("servers", Value::List(vec![map(vec![("url", s("http://h"))])])),
        ("paths", map(vec![("/a", map(vec![("get", map(vec![]))])), ("/b", map(vec![("fetch", map(vec![]))]))])),
    ]);
    let e = infer_v3("Api", &doc).err().unwrap();
    assert_eq!(e.kind, ErrorKind::Method);
    assert_eq!(e.detail, "fetch");
}

#[test]
fn scalar_helper_matches_table() {
    let f = s("int64");
    assert!(matches!(infer_scalar("integer", Some(&f)), Ok(TypeRef::Int64)));
    assert!(matches!(infer_scalar("INTEGER", Some(&f)), Err(_)));
    let e = infer_scalar("file", None).err().unwrap();
    assert_eq!(e.kind, ErrorKind::Type);
    assert_eq!(e.detail, "file");
}

#[test]
fn missing_type_is_schema_error() {
    assert_eq!(infer_err(&map(vec![("format", s("int32"))])), ErrorKind::Schema);
    assert_eq!(infer_err(&map(vec![("type", Value::Int(3))])), ErrorKind::Schema);
    assert_eq!(infer_err(&Value::Null), ErrorKind::Schema);
    assert_eq!(infer_err(&map(vec![("type", s("array"))])), ErrorKind::Schema);
}

#[test]
fn reference_takes_class_cased_last_segment() {
    let mut reg = empty_registry();
    let node = map(vec![("$ref", s("#/components/schemas/pet_owner"))]);
    match infer_ok(&node, &mut reg) {
        TypeRef::Component(name) => assert_eq!(name, "PetOwner"),
        _ => panic!("expected a component type"),
    }
    assert_eq!(ref_name("#/a/b/c"), "c");
    assert_eq!(ref_name("plain"), "plain");
    assert_eq!(ref_name("ends/"), "");
}

#[test]
fn array_wraps_item_and_keeps_its_definitions() {
    let mut reg = empty_registry();
    let node = map(vec![
        ("type", s("array")),
        ("items", object(vec![("id", scalar("integer", Some("int64")))], vec!["id"])),
    ]);
    let r = infer_type(&mut reg, &node).ok().unwrap();
    match r.type_ref {
        TypeRef::Sequence(inner) => assert!(matches!(*inner, TypeRef::Object(0))),
        _ => panic!("expected a sequence"),
    }
    assert_eq!(r.supplementary, vec![0]);
    assert_eq!(reg.defs.len(), 1);
}

#[test]
fn object_fields_follow_required_flags() {
    let mut reg = empty_registry();
    let node = object(
        vec![("petName", scalar("string", None)), ("age", scalar("integer", Some("int32")))],
        vec!["petName"],
    );
    let r = infer_type(&mut reg, &node).ok().unwrap();
    assert!(matches!(r.type_ref, TypeRef::Object(0)));
    let fields = &reg.defs[0].fields;
    assert_eq!(fields.len(), 2);
    assert_eq!(fields[0].wire_name, "petName");
    assert_eq!(fields[0].field_name, "pet_name");
    assert!(matches!(fields[0].ty, TypeRef::Text));
    assert_eq!(fields[1].wire_name, "age");
    match &fields[1].ty {
        TypeRef::Optional(inner) => assert!(matches!(**inner, TypeRef::Int32)),
        _ => panic!("expected an optional field"),
    }
}

#[test]
fn object_with_non_string_required_is_schema_error() {
    let node = map(vec![
        ("type", s("object")),
        ("required", Value::List(vec![Value::Int(1)])),
        ("properties", map(vec![])),
    ]);
    assert_eq!(infer_err(&node), ErrorKind::Schema);
    let no_props = map(vec![("type", s("object"))]);
    assert_eq!(infer_err(&no_props), ErrorKind::Schema);
}

#[test]
fn identical_shapes_share_one_type() {
    let mut reg = empty_registry();
    let inner = || object(vec![("x", scalar("integer", Some("int32")))], vec!["x"]);
    let node = object(vec![("a", inner()), ("b", inner())], vec!["a", "b"]);
    let r = infer_type(&mut reg, &node).ok().unwrap();
    assert_eq!(reg.defs.len(), 2);
    assert!(matches!(reg.defs[1].fields[0].ty, TypeRef::Object(0)));
    assert!(matches!(reg.defs[1].fields[1].ty, TypeRef::Object(0)));
    assert!(matches!(r.type_ref, TypeRef::Object(1)));
    assert_eq!(r.supplementary, vec![0, 0, 1]);
    let again = infer_type(&mut reg, &inner()).ok().unwrap();
    assert!(matches!(again.type_ref, TypeRef::Object(0)));
    assert_eq!(reg.defs.len(), 2);
}

#[test]
fn differing_shapes_get_distinct_types() {
    let mut reg = empty_registry();
    let ab = object(vec![("a", scalar("boolean", None)), ("b", scalar("string", None))], vec![]);
    let ba = object(vec![("b", scalar("string", None)), ("a", scalar("boolean", None))], vec![]);
    let ab_required = object(vec![("a", scalar("boolean", None)), ("b", scalar("string", None))], vec!["a"]);
    let t1 = infer_ok(&ab, &mut reg);
    let t2 = infer_ok(&ba, &mut reg);
    let t3 = infer_ok(&ab_required, &mut reg);
    assert!(matches!(t1, TypeRef::Object(0)));
    assert!(matches!(t2, TypeRef::Object(1)));
    assert!(matches!(t3, TypeRef::Object(2)));
    let t4 = infer_ok(&ab, &mut reg);
    assert!(matches!(t4, TypeRef::Object(0)));
    assert_eq!(reg.defs.len(), 3);
}

#[test]
fn verbs_match_ignoring_case() {
    for m in ["delete", "GET", "Head", "pAtCh", "post", "PUT", "po\u{17f}t"] {
        assert!(valid(m), "{}", m);
    }
    for m in ["OPTIONS", "TRACE", "GETS", "", "ge"] {
        assert!(!valid(m), "{}", m);
    }
    assert_eq!(Verb::parse("pAtCh"), Some(Verb::Patch));
    assert_eq!(Verb::parse("po\u{17f}t"), Some(Verb::Post));
    assert_eq!(Verb::Patch.fn_name(), "patch");
    assert_eq!(Verb::Patch.token(), "PATCH");
}

#[test]
fn unknown_verb_is_method_error() {
    let mut reg = empty_registry();
    let r = infer_method(&mut reg, "OPTIONS", &map(vec![]));
    let e = r.err().unwrap();
    assert_eq!(e.kind, ErrorKind::Method);
    assert_eq!(e.detail, "OPTIONS");
}

#[test]
fn no_query_parameters_no_group() {
    let mut reg = empty_registry();
    let op = infer_method(&mut reg, "get", &map(vec![])).ok().unwrap();
    assert!(op.query.is_none());
    assert!(op.transform.is_none());
    let header = map(vec![
        ("name", s("X-Token")),
        ("in", s("header")),
        ("schema", scalar("string", None)),
    ]);
    let op = infer_method(&mut reg, "post", &map(vec![("parameters", Value::List(vec![header]))])).ok().unwrap();
    assert!(op.query.is_none());
    assert!(op.transform.is_none());
    assert_eq!(op.verb, Verb::Post);
}

#[test]
fn query_parameters_form_one_mandatory_group() {
    let mut reg = empty_registry();
    let mut optional = query_param("pageSize", scalar("integer", Some("int64")));
    if let Value::Mapping(entries) = &mut optional {
        entries.push((s("required"), Value::Bool(false)));
    }
    let params = Value::List(vec![
        query_param("q", scalar("string", None)),
        map(vec![("name", s("id")), ("in", s("path")), ("schema", scalar("string", None))]),
        optional,
    ]);
    let op = infer_method(&mut reg, "get", &map(vec![("parameters", params)])).ok().unwrap();
    let group = op.query.unwrap();
    assert_eq!(group.name, "GetQueryParams");
    assert_eq!(group.fields.len(), 2);
    assert_eq!(group.fields[0].wire_name, "q");
    assert!(matches!(group.fields[0].ty, TypeRef::Text));
    assert_eq!(group.fields[1].wire_name, "pageSize");
    assert_eq!(group.fields[1].field_name, "page_size");
    assert!(matches!(group.fields[1].ty, TypeRef::Int64));
    let t = op.transform.unwrap();
    assert_eq!(t.appends.len(), 2);
    assert_eq!(t.appends[1].wire_name, "pageSize");
    assert_eq!(t.appends[1].field_name, "page_size");
}

#[test]
fn query_parameter_without_name_is_schema_error() {
    let mut reg = empty_registry();
    let params = Value::List(vec![map(vec![("in", s("query")), ("schema", scalar("string", None))])]);
    let r = infer_method(&mut reg, "get", &map(vec![("parameters", params)]));
    assert_eq!(r.err().unwrap().kind, ErrorKind::Schema);
}

#[test]
fn query_parameter_without_schema_names_it() {
    let mut reg = empty_registry();
    let params = Value::List(vec![map(vec![("name", s("limit")), ("in", s("query"))])]);
    let e = infer_method(&mut reg, "get", &map(vec![("parameters", params)])).err().unwrap();
    assert_eq!(e.kind, ErrorKind::Schema);
    assert_eq!(e.detail, "parameter without schema: limit");
}

#[test]
fn group_name_is_class_cased_verb() {
    assert_eq!(query_param_struct_ident("get"), "GetQueryParams");
    assert_eq!(query_param_struct_ident("GET"), "GetQueryParams");
}

#[test]
fn path_names() {
    assert_eq!(struct_ident("Api", "/pets/owners"), "ApiPetsOwner");
    assert_eq!(fn_ident("/Pets/Owners"), "petsowners");
}

#[test]
fn path_with_bad_verb_fails() {
    let mut reg = empty_registry();
    let schema = map(vec![("get", map(vec![])), ("fetch", map(vec![]))]);
    let r = infer_path(&mut reg, "Api", "/users", &schema);
    assert_eq!(r.err().unwrap().kind, ErrorKind::Method);
}

#[test]
fn empty_servers_fail_before_paths() {
    let doc = map(vec![
        ("servers", Value::List(vec![])),
        ("paths", map(vec![("/x", map(vec![("fetch", map(vec![]))]))])),
    ]);
    assert_eq!(infer_v3("Api", &doc).err().unwrap().kind, ErrorKind::Schema);
    let missing = map(vec![("paths", map(vec![]))]);
    assert_eq!(infer_v3("Api", &missing).err().unwrap().kind, ErrorKind::Schema);
}

#[test]
fn users_get_with_page_end_to_end() {
    let doc = map(vec![
        ("servers", Value::List(vec![map(vec![("url", s("https://example.org/v1"))])])),
        (
            "paths",
            map(vec![(
                "/users",
                map(vec![(
                    "GET",
                    map(vec![(
                        "parameters",
                        Value::List(vec![query_param("page", scalar("integer", Some("int32")))]),
                    )]),
                )]),
            )]),
        ),
    ]);
    let api = infer_v3("Api", &doc).ok().unwrap();
    assert_eq!(api.base_url, "https://example.org/v1");
    assert_eq!(api.paths.len(), 1);
    let path = &api.paths[0];
    assert_eq!(path.path, "/users");
    assert_eq!(path.accessor, "users");
    assert_eq!(path.operations.len(), 1);
    let op = &path.operations[0];
    assert_eq!(op.verb, Verb::Get);
    assert_eq!(op.verb.fn_name(), "get");
    let group = op.query.as_ref().unwrap();
    assert_eq!(group.name, "GetQueryParams");
    assert_eq!(group.fields.len(), 1);
    assert_eq!(group.fields[0].wire_name, "page");
    assert_eq!(group.fields[0].field_name, "page");
    assert!(matches!(group.fields[0].ty, TypeRef::Int32));
    let t = op.transform.as_ref().unwrap();
    assert_eq!(t.appends.len(), 1);
    assert_eq!(t.appends[0].wire_name, "page");
    assert_eq!(t.appends[0].field_name, "page");
    assert!(api.types.defs.is_empty());
}
