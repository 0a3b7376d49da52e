//! The schema builder: from the field model to a schema tree.
use vstd::prelude::*;
use crate::cel::{RuleScope, compose, composed, opt_string_view, clone_opt_string};
use crate::field::{SchemaModel, FieldDescriptor, FieldType, MergeStrategy, ScalarKind, StructDescriptor, check_merge, defaulting_valid, is_nullable, is_optional, is_required, merge_allowed};
use crate::schema::{RootSchema, RootView, nodes_view, Property, lemma_properties_view, properties_view, Format, ListType, MapType, SchemaNode, SchemaType, SchemaView, clone_strings, plain_node, plain_view, strings_view};

verus! {

pub open spec fn scalar_type(k: ScalarKind) -> SchemaType {
    match k {
        ScalarKind::String => SchemaType::String,
        ScalarKind::Boolean => SchemaType::Boolean,
        ScalarKind::Double => SchemaType::Number,
        _ => SchemaType::Integer,
    }
}

pub open spec fn scalar_format(k: ScalarKind) -> Option<Format> {
    match k {
        ScalarKind::Int32 => Some(Format::Int32),
        ScalarKind::Int64 => Some(Format::Int64),
        ScalarKind::UInt32 => Some(Format::UInt32),
        ScalarKind::UInt64 => Some(Format::UInt64),
        ScalarKind::Double => Some(Format::Double),
        _ => None,
    }
}

/// The schema of a type, before anything that the field adds.
pub open spec fn type_view(t: FieldType) -> SchemaView
    decreases t,
{
    match t {
        FieldType::Scalar(k) => plain_view(scalar_type(k), scalar_format(k)),
        FieldType::Optional(b) => SchemaView { nullable: true, ..type_view(*b) },
        FieldType::Sequence(b) => SchemaView {
            items: Some(Box::new(type_view(*b))),
            ..plain_view(SchemaType::Array, None)
        },
        FieldType::Mapping(b) => SchemaView {
            additional_properties: Some(Box::new(type_view(*b))),
            ..plain_view(SchemaType::Object, None)
        },
        FieldType::Struct(k) => plain_view(SchemaType::Ref(k), None),
    }
}

/// The merge annotation that a strategy puts on a node.
pub open spec fn annotated(v: SchemaView, m: MergeStrategy) -> SchemaView {
    match m {
        MergeStrategy::Atomic => v,
        MergeStrategy::ValueSet => SchemaView { list_type: Some(ListType::ValueSet), ..v },
        MergeStrategy::KeyedMap(keys) => SchemaView {
            list_type: Some(ListType::KeyedMap),
            list_map_keys: strings_view(keys@),
            ..v
        },
        MergeStrategy::Merge => SchemaView { map_type: Some(MapType::Granular), ..v },
    }
}

/// The schema of a field: its type's, with its default, its rules and its
/// merge annotation.
pub open spec fn field_view(f: FieldDescriptor) -> SchemaView {
    annotated(
        SchemaView {
            default: opt_string_view(f.default),
            validations: composed(f.rules@, RuleScope::Field),
            ..type_view(f.ty)
        },
        f.merge,
    )
}

/// The names of the required fields, in declaration order.
pub open spec fn required_names(fields: Seq<FieldDescriptor>) -> Seq<Seq<char>>
    decreases fields.len(),
{
    if fields.len() == 0 {
        Seq::empty()
    } else {
        let prev = required_names(fields.drop_last());
        if is_required(fields.last()) {
            prev.push(fields.last().name@)
        } else {
            prev
        }
    }
}

/// The schema of a struct.
pub open spec fn struct_view(s: StructDescriptor) -> SchemaView {
    SchemaView {
        properties: s.fields@.map_values(|f: FieldDescriptor| (f.name@, field_view(f))),
        required: required_names(s.fields@),
        validations: composed(s.rules@, RuleScope::Struct),
        ..plain_view(SchemaType::Object, None)
    }
}

pub fn build_type(t: &FieldType) -> (r: SchemaNode)
    ensures
        r@ == type_view(*t),
    decreases t,
{
    match t {
        FieldType::Scalar(k) => {
            let (st, f) = match k {
                ScalarKind::String => (SchemaType::String, None),
                ScalarKind::Boolean => (SchemaType::Boolean, None),
                ScalarKind::Int32 => (SchemaType::Integer, Some(Format::Int32)),
                ScalarKind::Int64 => (SchemaType::Integer, Some(Format::Int64)),
                ScalarKind::UInt32 => (SchemaType::Integer, Some(Format::UInt32)),
                ScalarKind::UInt64 => (SchemaType::Integer, Some(Format::UInt64)),
                ScalarKind::Double => (SchemaType::Number, Some(Format::Double)),
            };
            plain_node(st, f)
        },
        FieldType::Optional(b) => {
            let mut n = build_type(b);
            let ghost before = n@;
            n.nullable = true;
            assert(n@.properties =~= before.properties);
            n
        },
        FieldType::Sequence(b) => {
            let mut n = plain_node(SchemaType::Array, None);
            let ghost before = n@;
            n.items = Some(Box::new(build_type(b)));
            assert(n@.properties =~= before.properties);
            n
        },
        FieldType::Mapping(b) => {
            let mut n = plain_node(SchemaType::Object, None);
            let ghost before = n@;
            n.additional_properties = Some(Box::new(build_type(b)));
            assert(n@.properties =~= before.properties);
            n
        },
        FieldType::Struct(k) => plain_node(SchemaType::Ref(*k), None),
    }
}

/// Puts the merge annotation of strategy `m` on node `n`. Whether the
/// strategy fits the field's type is for `check_merge` to say.
pub fn annotate(n: SchemaNode, m: &MergeStrategy) -> (r: SchemaNode)
    ensures
        r@ == annotated(n@, *m),
{
    let mut n = n;
    let ghost before = n@;
    match m {
        MergeStrategy::Atomic => {},
        MergeStrategy::ValueSet => {
            n.list_type = Some(ListType::ValueSet);
        },
        MergeStrategy::KeyedMap(keys) => {
            n.list_type = Some(ListType::KeyedMap);
            n.list_map_keys = clone_strings(keys);
        },
        MergeStrategy::Merge => {
            n.map_type = Some(MapType::Granular);
        },
    }
    assert(n@.properties =~= before.properties);
    n
}

/// The schema of one field. The field's model errors are checked by the
/// caller.
pub fn build_field(f: &FieldDescriptor) -> (r: SchemaNode)
    ensures
        r@ == field_view(*f),
{
    let mut n = build_type(&f.ty);
    let ghost before = n@;
    n.default = clone_opt_string(&f.default);
    n.validations = compose(&f.rules, RuleScope::Field);
    assert(n@.properties =~= before.properties);
    annotate(n, &f.merge)
}

/// The kinds of model error that abort generation.
#[derive(Clone, Copy, Debug, PartialEq, Eq, Structural)]
pub enum SchemaErrorKind {
    /// A root field is named `apiVersion`, `kind` or `metadata`.
    ReservedField,
    /// Two fields of one struct share a name.
    DuplicateField,
    /// A non-nullable field is skipped when absent.
    InvalidDefaulting,
    /// The merge strategy does not fit the field's type.
    InvalidMergeStrategy,
    /// The model's root index names no struct.
    UnknownRoot,
    /// A reference names no definition, or lies on a cycle.
    UnresolvableReference,
}

/// A model error, with the path (`Struct.field`) of the offending field
/// where there is one.
#[derive(Debug)]
pub struct SchemaError {
    pub kind: SchemaErrorKind,
    pub path: String,
}

/// Field names that the resource's root object keeps for itself.
pub open spec fn is_reserved(name: Seq<char>) -> bool {
    name == "apiVersion"@ || name == "kind"@ || name == "metadata"@
}

/// The model error of field `i`, checked in this order: a reserved name (on
/// the root struct), a repeated name, the defaulting category, the merge
/// strategy.
pub open spec fn field_error_at(fields: Seq<FieldDescriptor>, i: int, root: bool) -> Option<SchemaErrorKind> {
    if root && is_reserved(fields[i].name@) {
        Some(SchemaErrorKind::ReservedField)
    } else if exists|j: int| 0 <= j < i && #[trigger] fields[j].name@ == fields[i].name@ {
        Some(SchemaErrorKind::DuplicateField)
    } else if !defaulting_valid(fields[i]) {
        Some(SchemaErrorKind::InvalidDefaulting)
    } else if !merge_allowed(fields[i].ty, fields[i].merge) {
        Some(SchemaErrorKind::InvalidMergeStrategy)
    } else {
        None
    }
}

pub open spec fn struct_ok(s: StructDescriptor, root: bool) -> bool {
    forall|i: int| 0 <= i < s.fields@.len() ==> (#[trigger] field_error_at(s.fields@, i, root)) is None
}

pub open spec fn field_path(s: StructDescriptor, i: int) -> Seq<char> {
    s.name@ + seq!['.'] + s.fields@[i].name@
}

/// `e` is the error of the first field of `s` that has one.
pub open spec fn reports_first(s: StructDescriptor, root: bool, e: SchemaError) -> bool {
    exists|i: int|
        0 <= i < s.fields@.len() && field_error_at(s.fields@, i, root) == Some(e.kind)
            && e.path@ == field_path(s, i) && forall|j: int|
            0 <= j < i ==> (#[trigger] field_error_at(s.fields@, j, root)) is None
}

pub fn is_reserved_name(name: &String) -> (b: bool)
    ensures
        b == is_reserved(name@),
{
    let a = String::from_str("apiVersion");
    let k = String::from_str("kind");
    let m = String::from_str("metadata");
    *name == a || *name == k || *name == m
}

/// Whether field `i` repeats the name of an earlier field.
pub fn repeats_earlier_name(fields: &Vec<FieldDescriptor>, i: usize) -> (b: bool)
    requires
        i < fields@.len(),
    ensures
        b == exists|j: int| 0 <= j < i && #[trigger] fields@[j].name@ == fields@[i as int].name@,
{
    let mut j: usize = 0;
    while j < i
        invariant
            i < fields@.len(),
            j <= i,
            forall|k: int| 0 <= k < j ==> fields@[k].name@ != fields@[i as int].name@,
        decreases i - j,
    {
        if fields[j].name == fields[i].name {
            return true;
        }
        j = j + 1;
    }
    false
}

/// The schema of a struct, or the error of its first faulty field.
pub fn build_struct(s: &StructDescriptor, root: bool) -> (r: Result<SchemaNode, SchemaError>)
    ensures
        r is Ok <==> struct_ok(*s, root),
        r matches Ok(n) ==> n@ == struct_view(*s),
        r matches Err(e) ==> reports_first(*s, root, e),
{
    let ghost fields = s.fields@;
    let mut props: Vec<Property> = Vec::new();
    let mut required: Vec<String> = Vec::new();
    let mut i: usize = 0;
    while i < s.fields.len()
        invariant
            fields == s.fields@,
            i <= fields.len(),
            props@.len() == i,
            forall|j: int| 0 <= j < i ==> (#[trigger] field_error_at(fields, j, root)) is None,
            properties_view(props@) =~= fields.subrange(0, i as int).map_values(
                |f: FieldDescriptor| (f.name@, field_view(f)),
            ),
            strings_view(required@) =~= required_names(fields.subrange(0, i as int)),
        decreases fields.len() - i,
    {
        let f = &s.fields[i];
        let mut kind: Option<SchemaErrorKind> = None;
        if root && is_reserved_name(&f.name) {
            kind = Some(SchemaErrorKind::ReservedField);
        } else {
            if repeats_earlier_name(&s.fields, i) {
                kind = Some(SchemaErrorKind::DuplicateField);
            }
            if kind.is_none() {
                if !is_optional(&f.ty) && f.skip_if_none {
                    kind = Some(SchemaErrorKind::InvalidDefaulting);
                } else if !check_merge(&f.ty, &f.merge) {
                    kind = Some(SchemaErrorKind::InvalidMergeStrategy);
                }
            }
        }
        assert(kind == field_error_at(fields, i as int, root));
        if let Some(k) = kind {
            let mut path = s.name.clone();
            path.append(".");
            path.append(f.name.as_str());
            let e = SchemaError { kind: k, path };
            proof {
                reveal_strlit(".");
                assert(e.path@ =~= field_path(*s, i as int));
                assert(field_error_at(s.fields@, i as int, root) == Some(e.kind));
            }
            return Err(e);
        }
        let ghost before_props = props@;
        let ghost before_req = required@;
        props.push(Property { name: f.name.clone(), schema: build_field(f) });
        if !is_optional(&f.ty) && f.default.is_none() {
            required.push(f.name.clone());
            assert(strings_view(required@) =~= strings_view(before_req).push(f.name@));
        }
        assert(properties_view(props@) =~= properties_view(before_props).push((f.name@, props@[i as int].schema@)));
        assert(fields.subrange(0, i + 1) =~= fields.subrange(0, i as int).push(fields[i as int]));
        assert(fields.subrange(0, i + 1).drop_last() =~= fields.subrange(0, i as int));
        i = i + 1;
    }
    assert(fields.subrange(0, i as int) =~= fields);
    let n = SchemaNode {
        schema_type: SchemaType::Object,
        format: None,
        nullable: false,
        default: None,
        properties: props,
        required,
        items: None,
        additional_properties: None,
        validations: compose(&s.rules, RuleScope::Struct),
        list_type: None,
        list_map_keys: Vec::new(),
        map_type: None,
    };
    proof {
        lemma_properties_view(n);
        assert(n@.list_map_keys =~= Seq::<Seq<char>>::empty());
    }
    Ok(n)
}

pub open spec fn names_distinct(fields: Seq<FieldDescriptor>) -> bool {
    forall|i: int, j: int|
        0 <= j < i < fields.len() ==> #[trigger] fields[j].name@ != #[trigger] fields[i].name@
}

proof fn lemma_required_names(fields: Seq<FieldDescriptor>)
    requires
        names_distinct(fields),
    ensures
        forall|i: int|
            0 <= i < fields.len() ==> (required_names(fields).contains(#[trigger] fields[i].name@)
                <==> is_required(fields[i])),
        forall|x: Seq<char>|
            #[trigger] required_names(fields).contains(x) ==> exists|i: int|
                0 <= i < fields.len() && fields[i].name@ == x,
    decreases fields.len(),
{
    if fields.len() > 0 {
        let prev = fields.drop_last();
        assert(names_distinct(prev)) by {
            assert forall|i: int, j: int| 0 <= j < i < prev.len() implies #[trigger] prev[j].name@
                != #[trigger] prev[i].name@ by {
                assert(prev[j] == fields[j] && prev[i] == fields[i]);
            }
        }
        lemma_required_names(prev);
        let last = fields.last();
        assert forall|x: Seq<char>| #[trigger] required_names(fields).contains(x) implies exists|i: int|
            0 <= i < fields.len() && fields[i].name@ == x by {
            if required_names(prev).contains(x) {
                let i = choose|i: int| 0 <= i < prev.len() && prev[i].name@ == x;
                assert(fields[i] == prev[i]);
            } else {
                assert(fields[fields.len() - 1].name@ == x);
            }
        }
        assert forall|i: int| 0 <= i < fields.len() implies (required_names(fields).contains(
            #[trigger] fields[i].name@) <==> is_required(fields[i])) by {
            if i < fields.len() - 1 {
                assert(prev[i] == fields[i]);
                assert(fields[i].name@ != last.name@);
                if is_required(last) {
                    assert(required_names(fields) == required_names(prev).push(last.name@));
                    if required_names(fields).contains(fields[i].name@) {
                        let k = choose|k: int| 0 <= k < required_names(fields).len() && required_names(fields)[k] == fields[i].name@;
                        if k < required_names(prev).len() {
                            assert(required_names(prev)[k] == fields[i].name@);
                        }
                    }
                    if required_names(prev).contains(fields[i].name@) {
                        let k = choose|k: int| 0 <= k < required_names(prev).len() && required_names(prev)[k] == fields[i].name@;
                        assert(required_names(fields)[k] == fields[i].name@);
                    }
                }
            } else {
                if is_required(last) {
                    assert(required_names(fields)[required_names(prev).len() as int] == last.name@);
                } else {
                    if required_names(prev).contains(last.name@) {
                        let j = choose|j: int| 0 <= j < prev.len() && prev[j].name@ == last.name@;
                        assert(fields[j] == prev[j]);
                    }
                }
            }
        }
    }
}

/// A built struct lists a field as required exactly when the field is not
/// optional and has no default; each field appears among the properties
/// under its own name.
pub proof fn law_required_iff_not_nullable_and_no_default(s: StructDescriptor, root: bool)
    requires
        struct_ok(s, root),
    ensures
        struct_view(s).properties.len() == s.fields@.len(),
        forall|i: int|
            0 <= i < s.fields@.len() ==> (#[trigger] struct_view(s).properties[i]).0 == s.fields@[i].name@
                && (struct_view(s).required.contains(s.fields@[i].name@) <==> (!is_nullable(
                s.fields@[i].ty) && s.fields@[i].default is None)),
{
    let fields = s.fields@;
    assert(names_distinct(fields)) by {
        assert forall|i: int, j: int| 0 <= j < i < fields.len() implies #[trigger] fields[j].name@
            != #[trigger] fields[i].name@ by {
            assert(field_error_at(fields, i, root) is None);
        }
    }
    lemma_required_names(fields);
}

/// The meta-schema identifier that the builder writes: OpenAPI 3.0's schema.
pub open spec fn openapi3_meta_schema() -> Seq<char> {
    "https://spec.openapis.org/oas/3.0/schema/2021-09-28#/definitions/Schema"@
}

/// Every struct is free of model errors; the root struct also keeps clear of
/// the reserved names.
pub open spec fn model_ok(m: SchemaModel) -> bool {
    m.root < m.structs@.len() && forall|k: int|
        0 <= k < m.structs@.len() ==> struct_ok(#[trigger] m.structs@[k], k == m.root)
}

/// The built schema: a reference to the root struct, every struct as a
/// definition, and the OpenAPI meta-schema.
pub open spec fn model_view(m: SchemaModel) -> RootView {
    RootView {
        meta_schema: Some(openapi3_meta_schema()),
        root: plain_view(SchemaType::Ref(m.root), None),
        definitions: m.structs@.map_values(|s: StructDescriptor| struct_view(s)),
    }
}

/// `e` is the error that building `m` reports: an unknown root, or the first
/// error of the first faulty struct.
pub open spec fn model_reports(m: SchemaModel, e: SchemaError) -> bool {
    if m.root >= m.structs@.len() {
        e.kind == SchemaErrorKind::UnknownRoot
    } else {
        exists|k: int|
            0 <= k < m.structs@.len() && reports_first(m.structs@[k], k == m.root, e) && forall|j: int|
                0 <= j < k ==> struct_ok(#[trigger] m.structs@[j], j == m.root)
    }
}

/// Builds the schema of a model: every struct becomes a definition, and the
/// root is a reference to the root struct's definition.
pub fn build(m: &SchemaModel) -> (r: Result<RootSchema, SchemaError>)
    ensures
        r is Ok <==> model_ok(*m),
        r matches Ok(s) ==> s@ == model_view(*m),
        r matches Err(e) ==> model_reports(*m, e),
{
    if m.root >= m.structs.len() {
        return Err(SchemaError { kind: SchemaErrorKind::UnknownRoot, path: String::new() });
    }
    let mut defs: Vec<SchemaNode> = Vec::new();
    let mut k: usize = 0;
    while k < m.structs.len()
        invariant
            m.root < m.structs@.len(),
            k <= m.structs@.len(),
            forall|j: int| 0 <= j < k ==> struct_ok(#[trigger] m.structs@[j], j == m.root),
            nodes_view(defs@) =~= m.structs@.subrange(0, k as int).map_values(
                |s: StructDescriptor| struct_view(s),
            ),
        decreases m.structs@.len() - k,
    {
        match build_struct(&m.structs[k], k == m.root) {
            Ok(n) => {
                let ghost before = defs@;
                defs.push(n);
                assert(nodes_view(defs@) =~= nodes_view(before).push(n@));
                assert(m.structs@.subrange(0, k + 1) =~= m.structs@.subrange(0, k as int).push(
                    m.structs@[k as int],
                ));
            },
            Err(e) => {
                return Err(e);
            },
        }
        k = k + 1;
    }
    assert(m.structs@.subrange(0, k as int) =~= m.structs@);
    let r = RootSchema {
        meta_schema: Some(
            String::from_str("https://spec.openapis.org/oas/3.0/schema/2021-09-28#/definitions/Schema"),
        ),
        root: plain_node(SchemaType::Ref(m.root), None),
        definitions: defs,
    };
    Ok(r)
}

} // verus!
