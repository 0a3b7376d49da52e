use kube_derive::attrs::{KVTuple, Scale, SchemaMode};
use kube_derive::builder::SchemaErrorKind;
use kube_derive::cel::{CelRule, Message, Reason};
use kube_derive::defaulting::{deserialize, field_policy, Wire};
use kube_derive::field::{FieldDescriptor, FieldType, MergeStrategy, ScalarKind, SchemaModel, StructDescriptor};
use kube_derive::manifest::{
    api_version, crd_name, generate, plural_name, singular_name, Deprecation, GenerationError, ResourceDescriptor,
    Scope,
};
use kube_derive::schema::SchemaType;

fn field(name: &str, ty: FieldType) -> FieldDescriptor {
    FieldDescriptor {
        name: name.to_string(),
        ty,
        default: None,
        skip_if_none: false,
        merge: MergeStrategy::Atomic,
        rules: vec![],
    }
}

fn string() -> FieldType {
    FieldType::Scalar(ScalarKind::String)
}

fn foo() -> ResourceDescriptor {
    ResourceDescriptor::new("clux.dev".to_string(), "v1".to_string(), "Foo".to_string())
}

fn foo_spec() -> SchemaModel {
    SchemaModel {
        structs: vec![StructDescriptor { name: "FooSpec".to_string(), fields: vec![field("name", string())], rules: vec![] }],
        root: 0,
    }
}

fn status_model() -> SchemaModel {
    let mut m = foo_spec();
    m.structs.push(StructDescriptor {
        name: "FooStatus".to_string(),
        fields: vec![field("replicas", FieldType::Scalar(ScalarKind::Int32))],
        rules: vec![],
    });
    m
}

#[test]
fn names_from_kind() {
    let d = foo();
    assert_eq!(singular_name(&d), "foo");
    assert_eq!(plural_name(&d), "foos");
    assert_eq!(crd_name(&d), "foos.clux.dev");
    assert_eq!(api_version(&d), "clux.dev/v1");
    let mut p = ResourceDescriptor::new("g.io".to_string(), "v2".to_string(), "NetworkPolicy".to_string());
    assert_eq!(singular_name(&p), "networkpolicy");
    assert_eq!(plural_name(&p), "networkpolicies");
    p.singular = Some("netpol".to_string());
    assert_eq!(plural_name(&p), "netpols");
    p.plural = Some("octopi".to_string());
    assert_eq!(crd_name(&p), "octopi.g.io");
}

#[test]
fn default_manifest() {
    let m = generate(&foo(), &foo_spec()).unwrap();
    assert_eq!(m.name, "foos.clux.dev");
    assert_eq!(m.group, "clux.dev");
    assert_eq!(m.scope, Scope::Cluster);
    assert_eq!(m.names.kind, "Foo");
    assert_eq!(m.names.singular, "foo");
    assert_eq!(m.names.plural, "foos");
    assert_eq!(m.versions.len(), 1);
    let v = &m.versions[0];
    assert_eq!(v.name, "v1");
    assert!(v.served && v.storage && !v.deprecated);
    assert!(v.deprecation_warning.is_none());
    assert!(!v.subresources.status);
    assert!(v.subresources.scale.is_none());
    let schema = v.schema.as_ref().unwrap();
    assert!(schema.meta_schema.is_none());
    assert!(schema.definitions.is_empty());
    assert_eq!(schema.root.required, vec!["spec".to_string()]);
    assert_eq!(schema.root.properties.len(), 1);
    let spec = &schema.root.properties[0];
    assert_eq!(spec.name, "spec");
    assert_eq!(spec.schema.schema_type, SchemaType::Object);
    assert_eq!(spec.schema.properties[0].name, "name");
}

#[test]
fn full_manifest() {
    let mut d = foo();
    d.namespaced = true;
    d.status = Some(1);
    d.categories = vec!["all".to_string()];
    d.short_names = vec!["f".to_string(), "fo".to_string()];
    d.printer_columns = vec![r#"{"name":"Spec","type":"string","jsonPath":".spec.name"}"#.to_string()];
    d.selectable = vec![".spec.name".to_string()];
    d.scale = Some(Scale {
        label_selector_path: None,
        spec_replicas_path: ".spec.replicas".to_string(),
        status_replicas_path: ".status.replicas".to_string(),
    });
    d.annotations = vec![KVTuple("a".to_string(), "b".to_string())];
    d.labels = vec![KVTuple("l".to_string(), "v".to_string())];
    d.validations = vec![CelRule::new("self.metadata.name != 'forbidden'".to_string())];
    d.storage = false;
    d.deprecated = Some(Deprecation::Explicit("use v2".to_string()));
    let m = generate(&d, &status_model()).unwrap();
    assert_eq!(m.scope, Scope::Namespaced);
    assert_eq!(m.names.categories, vec!["all".to_string()]);
    assert_eq!(m.names.short_names, vec!["f".to_string(), "fo".to_string()]);
    assert_eq!(m.annotations[0].0, "a");
    assert_eq!(m.labels[0].1, "v");
    let v = &m.versions[0];
    assert!(!v.storage);
    assert!(v.served);
    assert!(v.deprecated);
    assert_eq!(v.deprecation_warning, Some("use v2".to_string()));
    assert_eq!(v.printer_columns.len(), 1);
    assert_eq!(v.selectable_fields, vec![".spec.name".to_string()]);
    assert!(v.subresources.status);
    assert_eq!(v.subresources.scale.as_ref().unwrap().spec_replicas_path, ".spec.replicas");
    let root = &v.schema.as_ref().unwrap().root;
    assert_eq!(root.properties[1].name, "status");
    assert!(root.properties[1].schema.nullable);
    assert_eq!(root.properties[1].schema.schema_type, SchemaType::Object);
    assert_eq!(root.required, vec!["spec".to_string()]);
    assert_eq!(root.validations.len(), 1);
    assert_eq!(root.validations[0].reason, Reason::FieldValueInvalid);
}

#[test]
fn inherited_deprecation_and_no_schema() {
    let mut d = foo();
    d.deprecated = Some(Deprecation::Inherit);
    d.schema = Some(SchemaMode::Disabled);
    let m = generate(&d, &foo_spec()).unwrap();
    assert!(m.versions[0].deprecated);
    assert!(m.versions[0].deprecation_warning.is_none());
    assert!(m.versions[0].schema.is_none());
    d.schema = Some(SchemaMode::Manual);
    assert!(generate(&d, &foo_spec()).unwrap().versions[0].schema.is_some());
}

#[test]
fn generation_errors() {
    let mut d = foo();
    d.kind = "FooSpec".to_string();
    assert!(matches!(generate(&d, &foo_spec()), Err(GenerationError::KindIsStructName)));
    d.kind_struct = Some("FooResource".to_string());
    assert!(generate(&d, &foo_spec()).is_ok());

    let mut d = foo();
    d.scale = Some(Scale {
        label_selector_path: None,
        spec_replicas_path: ".spec.replicas".to_string(),
        status_replicas_path: ".status.replicas".to_string(),
    });
    assert!(matches!(generate(&d, &foo_spec()), Err(GenerationError::ScaleWithoutStatus)));

    let d = foo();
    let bad = SchemaModel {
        structs: vec![StructDescriptor {
            name: "FooSpec".to_string(),
            fields: vec![field("metadata", string())],
            rules: vec![],
        }],
        root: 0,
    };
    match generate(&d, &bad) {
        Err(GenerationError::Schema(e)) => {
            assert_eq!(e.kind, SchemaErrorKind::ReservedField);
            assert_eq!(e.path, "FooSpec.metadata");
        },
        _ => panic!("expected a schema error"),
    }
    match generate(&d, &SchemaModel { structs: vec![], root: 0 }) {
        Err(GenerationError::Schema(e)) => assert_eq!(e.kind, SchemaErrorKind::UnknownRoot),
        _ => panic!("expected a schema error"),
    }
    let mut d = foo();
    d.status = Some(5);
    match generate(&d, &foo_spec()) {
        Err(GenerationError::Schema(e)) => assert_eq!(e.kind, SchemaErrorKind::UnresolvableReference),
        _ => panic!("expected a schema error"),
    }
}

#[test]
fn nullable_default_scenario() {
    let mut with_default = field("nullableWithDefault", FieldType::Optional(Box::new(string())));
    with_default.default = Some("\"default_nullable\"".to_string());
    with_default.skip_if_none = true;
    let model = SchemaModel {
        structs: vec![StructDescriptor {
            name: "FooSpec".to_string(),
            fields: vec![field("nonNullable", string()), with_default],
            rules: vec![],
        }],
        root: 0,
    };
    let m = generate(&foo(), &model).unwrap();
    let spec = &m.versions[0].schema.as_ref().unwrap().root.properties[0].schema;
    assert_eq!(spec.required, vec!["nonNullable".to_string()]);
    let p = field_policy(&model.structs[0].fields[1]);
    assert_eq!(deserialize(&p, &Wire::Missing), Ok(Some("\"default_nullable\"".to_string())));
    assert_eq!(deserialize(&p, &Wire::Null), Ok(None));
    let required = field_policy(&model.structs[0].fields[0]);
    assert!(deserialize(&required, &Wire::Missing).is_err());
}

#[test]
fn two_rules_scenario_in_schema() {
    let mut f = field("celValidated", FieldType::Optional(Box::new(string())));
    f.rules = vec![
        CelRule {
            rule: "self != 'illegal'".to_string(),
            message: Some(Message::Message("string cannot be illegal".to_string())),
            reason: Some(Reason::FieldValueForbidden),
            field_path: None,
        },
        CelRule {
            rule: "self != 'not legal'".to_string(),
            message: None,
            reason: Some(Reason::FieldValueInvalid),
            field_path: None,
        },
    ];
    let model = SchemaModel {
        structs: vec![StructDescriptor { name: "FooSpec".to_string(), fields: vec![f], rules: vec![] }],
        root: 0,
    };
    let m = generate(&foo(), &model).unwrap();
    let cel = &m.versions[0].schema.as_ref().unwrap().root.properties[0].schema.properties[0].schema;
    assert_eq!(cel.validations.len(), 2);
    assert_eq!(cel.validations[0].reason, Reason::FieldValueForbidden);
    assert_eq!(cel.validations[1].rule, "self != 'not legal'");
    assert_eq!(cel.validations[1].reason, Reason::FieldValueInvalid);
}
