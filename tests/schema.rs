use kube_derive::builder::{annotate, build, build_struct, SchemaErrorKind};
use kube_derive::cel::{CelRule, RuleScope};
use kube_derive::field::{check_merge, FieldDescriptor, FieldType, MergeStrategy, ScalarKind, SchemaModel, StructDescriptor};
use kube_derive::schema::{plain_node, Format, ListType, MapType, SchemaType};
use kube_derive::structural::rewrite;

fn field(name: &str, ty: FieldType) -> FieldDescriptor {
    FieldDescriptor {
        name: name.to_string(),
        ty,
        default: None,
        skip_if_none: false,
        merge: MergeStrategy::Atomic,
        rules: vec![],
    }
}

fn string() -> FieldType {
    FieldType::Scalar(ScalarKind::String)
}

fn optional(t: FieldType) -> FieldType {
    FieldType::Optional(Box::new(t))
}

fn strukt(name: &str, fields: Vec<FieldDescriptor>) -> StructDescriptor {
    StructDescriptor { name: name.to_string(), fields, rules: vec![] }
}

#[test]
fn required_iff_not_nullable_and_no_default() {
    let mut with_default = field("withDefault", string());
    with_default.default = Some("\"x\"".to_string());
    let mut nullable_with_default = field("nullableWithDefault", optional(string()));
    nullable_with_default.default = Some("\"default_nullable\"".to_string());
    let s = strukt(
        "FooSpec",
        vec![field("nonNullable", string()), with_default, field("nullable", optional(string())), nullable_with_default],
    );
    let n = build_struct(&s, true).unwrap();
    assert_eq!(n.required, vec!["nonNullable".to_string()]);
    let names: Vec<&str> = n.properties.iter().map(|p| p.name.as_str()).collect();
    assert_eq!(names, vec!["nonNullable", "withDefault", "nullable", "nullableWithDefault"]);
    assert!(!n.properties[0].schema.nullable);
    assert!(n.properties[2].schema.nullable);
    assert_eq!(n.properties[3].schema.default, Some("\"default_nullable\"".to_string()));
}

#[test]
fn scalar_types_and_formats() {
    let s = strukt(
        "S",
        vec![
            field("a", FieldType::Scalar(ScalarKind::Int32)),
            field("b", FieldType::Scalar(ScalarKind::UInt64)),
            field("c", FieldType::Scalar(ScalarKind::Boolean)),
            field("d", FieldType::Scalar(ScalarKind::Double)),
            field("e", string()),
        ],
    );
    let n = build_struct(&s, false).unwrap();
    assert_eq!(n.schema_type, SchemaType::Object);
    assert_eq!(n.properties[0].schema.schema_type, SchemaType::Integer);
    assert_eq!(n.properties[0].schema.format, Some(Format::Int32));
    assert_eq!(n.properties[1].schema.format, Some(Format::UInt64));
    assert_eq!(n.properties[2].schema.schema_type, SchemaType::Boolean);
    assert_eq!(n.properties[3].schema.schema_type, SchemaType::Number);
    assert_eq!(n.properties[3].schema.format, Some(Format::Double));
    assert_eq!(n.properties[4].schema.schema_type, SchemaType::String);
    assert_eq!(n.properties[4].schema.format, None);
}

#[test]
fn sequences_and_mappings() {
    let mut set = field("set", FieldType::Sequence(Box::new(FieldType::Scalar(ScalarKind::Int64))));
    set.merge = MergeStrategy::ValueSet;
    let mut keyed = field("keyed", FieldType::Sequence(Box::new(FieldType::Struct(1))));
    keyed.merge = MergeStrategy::KeyedMap(vec!["name".to_string()]);
    let mut map = field("labels", FieldType::Mapping(Box::new(string())));
    map.merge = MergeStrategy::Merge;
    let plain = field("list", FieldType::Sequence(Box::new(string())));
    let n = build_struct(&strukt("S", vec![set, keyed, map, plain]), false).unwrap();
    let p = &n.properties;
    assert_eq!(p[0].schema.schema_type, SchemaType::Array);
    assert_eq!(p[0].schema.list_type, Some(ListType::ValueSet));
    assert_eq!(p[0].schema.items.as_ref().unwrap().format, Some(Format::Int64));
    assert_eq!(p[1].schema.list_type, Some(ListType::KeyedMap));
    assert_eq!(p[1].schema.list_map_keys, vec!["name".to_string()]);
    assert_eq!(p[1].schema.items.as_ref().unwrap().schema_type, SchemaType::Ref(1));
    assert_eq!(p[2].schema.schema_type, SchemaType::Object);
    assert_eq!(p[2].schema.map_type, Some(MapType::Granular));
    assert_eq!(p[2].schema.additional_properties.as_ref().unwrap().schema_type, SchemaType::String);
    assert_eq!(p[3].schema.list_type, None);
}

#[test]
fn field_rules_in_order() {
    let mut f = field("celValidated", optional(string()));
    f.rules = vec![CelRule::new("self != 'illegal'".to_string()), CelRule::new("self != 'not legal'".to_string())];
    let n = build_struct(&strukt("S", vec![f]), false).unwrap();
    let v = &n.properties[0].schema.validations;
    assert_eq!(v.len(), 2);
    assert_eq!(v[0].rule, "self != 'illegal'");
    assert_eq!(v[1].rule, "self != 'not legal'");
    let _ = RuleScope::Field;
}

#[test]
fn model_errors() {
    let e = build_struct(&strukt("Root", vec![field("kind", string())]), true).unwrap_err();
    assert_eq!(e.kind, SchemaErrorKind::ReservedField);
    assert_eq!(e.path, "Root.kind");
    assert!(build_struct(&strukt("Inner", vec![field("kind", string())]), false).is_ok());

    let e = build_struct(&strukt("S", vec![field("a", string()), field("a", string())]), false).unwrap_err();
    assert_eq!(e.kind, SchemaErrorKind::DuplicateField);

    let mut skipped = field("b", string());
    skipped.skip_if_none = true;
    let e = build_struct(&strukt("S", vec![skipped]), false).unwrap_err();
    assert_eq!(e.kind, SchemaErrorKind::InvalidDefaulting);
    assert_eq!(e.path, "S.b");

    let mut keyed_scalars = field("c", FieldType::Sequence(Box::new(string())));
    keyed_scalars.merge = MergeStrategy::KeyedMap(vec!["k".to_string()]);
    let e = build_struct(&strukt("S", vec![keyed_scalars]), false).unwrap_err();
    assert_eq!(e.kind, SchemaErrorKind::InvalidMergeStrategy);

    let mut set_on_scalar = field("d", string());
    set_on_scalar.merge = MergeStrategy::ValueSet;
    let e = build_struct(&strukt("S", vec![set_on_scalar]), false).unwrap_err();
    assert_eq!(e.kind, SchemaErrorKind::InvalidMergeStrategy);

    let e = build(&SchemaModel { structs: vec![], root: 0 }).unwrap_err();
    assert_eq!(e.kind, SchemaErrorKind::UnknownRoot);
}

fn nested_model() -> SchemaModel {
    let inner = strukt("Inner", vec![field("x", string())]);
    let outer = strukt(
        "Outer",
        vec![field("inner", FieldType::Struct(1)), field("maybe", optional(FieldType::Struct(1)))],
    );
    SchemaModel { structs: vec![outer, inner], root: 0 }
}

#[test]
fn rewrite_inlines_and_marks_nullable() {
    let built = build(&nested_model()).unwrap();
    assert!(built.meta_schema.is_some());
    assert_eq!(built.root.schema_type, SchemaType::Ref(0));
    let r = rewrite(&built).unwrap();
    assert!(r.meta_schema.is_none());
    assert!(r.definitions.is_empty());
    assert_eq!(r.root.schema_type, SchemaType::Object);
    let inner = &r.root.properties[0].schema;
    assert_eq!(inner.schema_type, SchemaType::Object);
    assert!(!inner.nullable);
    assert_eq!(inner.properties[0].name, "x");
    let maybe = &r.root.properties[1].schema;
    assert_eq!(maybe.schema_type, SchemaType::Object);
    assert!(maybe.nullable);
    assert_eq!(r.root.required, vec!["inner".to_string()]);
}

#[test]
fn rewrite_is_idempotent() {
    let built = build(&nested_model()).unwrap();
    let once = rewrite(&built).unwrap();
    let twice = rewrite(&once).unwrap();
    assert_eq!(format!("{:?}", once), format!("{:?}", twice));
}

#[test]
fn rewrite_detects_cycles_and_dangling_references() {
    let a = strukt("A", vec![field("b", FieldType::Struct(1))]);
    let b = strukt("B", vec![field("a", optional(FieldType::Struct(0)))]);
    let built = build(&SchemaModel { structs: vec![a, b], root: 0 }).unwrap();
    assert_eq!(rewrite(&built).unwrap_err().kind, SchemaErrorKind::UnresolvableReference);
    let dangling = strukt("A", vec![field("b", FieldType::Struct(7))]);
    let built = build(&SchemaModel { structs: vec![dangling], root: 0 }).unwrap();
    assert_eq!(rewrite(&built).unwrap_err().kind, SchemaErrorKind::UnresolvableReference);
}

#[test]
fn annotator_marks_lists_and_objects() {
    let keyed = annotate(plain_node(SchemaType::Array, None), &MergeStrategy::KeyedMap(vec!["id".to_string()]));
    assert_eq!(keyed.list_type, Some(ListType::KeyedMap));
    assert_eq!(keyed.list_map_keys, vec!["id".to_string()]);
    let atomic = annotate(plain_node(SchemaType::Array, None), &MergeStrategy::Atomic);
    assert_eq!(atomic.list_type, None);
    assert_eq!(atomic.map_type, None);
    let merged = annotate(plain_node(SchemaType::Object, None), &MergeStrategy::Merge);
    assert_eq!(merged.map_type, Some(MapType::Granular));
    let items = FieldType::Sequence(Box::new(optional(FieldType::Struct(0))));
    assert!(check_merge(&items, &MergeStrategy::KeyedMap(vec!["id".to_string()])));
    assert!(check_merge(&optional(FieldType::Struct(0)), &MergeStrategy::Merge));
    assert!(!check_merge(&string(), &MergeStrategy::Merge));
    assert!(check_merge(&string(), &MergeStrategy::Atomic));
}
