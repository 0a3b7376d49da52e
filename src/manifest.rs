//! The resource descriptor and the assembly of its
//! `CustomResourceDefinition` manifest.
use vstd::prelude::*;
use crate::attrs::{KVTuple, Scale, ScaleView, SchemaMode, default_served_arg, default_storage_arg};
use crate::builder::{SchemaError, SchemaErrorKind, build, model_ok, model_reports, model_view};
use crate::cel::{CelRule, RuleScope, compose, composed, opt_string_view};
use crate::field::SchemaModel;
use crate::plural::{plural_of, to_plural};
use crate::schema::{
    Property, RootSchema, RootView, SchemaNode, SchemaType, SchemaView, clone_strings, lemma_properties_view,
    plain_node, plain_view, strings_view,
};
use crate::structural::{rewrite, rewritten};

verus! {

/// Whether a version is deprecated with the server's own warning, or with
/// one of the resource's.
#[derive(Debug)]
pub enum Deprecation {
    Inherit,
    Explicit(String),
}

/// Everything about a resource but its fields.
#[derive(Debug)]
pub struct ResourceDescriptor {
    pub group: String,
    pub version: String,
    pub kind: String,
    /// The name of the generated root type, where it is not the kind.
    pub kind_struct: Option<String>,
    pub plural: Option<String>,
    pub singular: Option<String>,
    pub namespaced: bool,
    pub schema: Option<SchemaMode>,
    /// The status struct, by its index among the model's structs.
    pub status: Option<usize>,
    pub categories: Vec<String>,
    pub short_names: Vec<String>,
    /// Printer columns, each as the JSON text of one column definition.
    pub printer_columns: Vec<String>,
    /// JSON paths of the fields that can be selected on.
    pub selectable: Vec<String>,
    pub scale: Option<Scale>,
    pub annotations: Vec<KVTuple>,
    pub labels: Vec<KVTuple>,
    /// Rules on the whole resource.
    pub validations: Vec<CelRule>,
    pub storage: bool,
    pub served: bool,
    pub deprecated: Option<Deprecation>,
}

impl ResourceDescriptor {
    /// A descriptor with the given identity and every option at its default:
    /// cluster-scoped, served and stored, schema derived.
    pub fn new(group: String, version: String, kind: String) -> (r: ResourceDescriptor)
        ensures
            r.group@ == group@,
            r.version@ == version@,
            r.kind@ == kind@,
            r.kind_struct is None,
            r.plural is None,
            r.singular is None,
            !r.namespaced,
            r.schema is None,
            r.status is None,
            r.categories@.len() == 0,
            r.short_names@.len() == 0,
            r.printer_columns@.len() == 0,
            r.selectable@.len() == 0,
            r.scale is None,
            r.annotations@.len() == 0,
            r.labels@.len() == 0,
            r.validations@.len() == 0,
            r.storage,
            r.served,
            r.deprecated is None,
    {
        ResourceDescriptor {
            group,
            version,
            kind,
            kind_struct: None,
            plural: None,
            singular: None,
            namespaced: false,
            schema: None,
            status: None,
            categories: Vec::new(),
            short_names: Vec::new(),
            printer_columns: Vec::new(),
            selectable: Vec::new(),
            scale: None,
            annotations: Vec::new(),
            labels: Vec::new(),
            validations: Vec::new(),
            storage: default_storage_arg(),
            served: default_served_arg(),
            deprecated: None,
        }
    }
}

#[derive(Clone, Copy, Debug, PartialEq, Eq, Structural)]
pub enum Scope {
    Namespaced,
    Cluster,
}

/// `spec.names` of the manifest.
#[derive(Debug)]
pub struct Names {
    pub plural: String,
    pub singular: String,
    pub kind: String,
    pub short_names: Vec<String>,
    pub categories: Vec<String>,
}

/// The sub-resources of a version.
#[derive(Debug)]
pub struct Subresources {
    pub status: bool,
    pub scale: Option<Scale>,
}

/// One entry of `spec.versions`.
#[derive(Debug)]
pub struct CrdVersion {
    pub name: String,
    pub served: bool,
    pub storage: bool,
    pub deprecated: bool,
    pub deprecation_warning: Option<String>,
    pub schema: Option<RootSchema>,
    pub printer_columns: Vec<String>,
    pub selectable_fields: Vec<String>,
    pub subresources: Subresources,
}

/// A `CustomResourceDefinition`.
#[derive(Debug)]
pub struct Manifest {
    pub name: String,
    pub annotations: Vec<KVTuple>,
    pub labels: Vec<KVTuple>,
    pub group: String,
    pub scope: Scope,
    pub names: Names,
    pub versions: Vec<CrdVersion>,
}

/// Why a manifest could not be generated.
#[derive(Debug)]
pub enum GenerationError {
    /// The field model is at fault.
    Schema(SchemaError),
    /// The kind (or the chosen root type name) is the name of the spec struct.
    KindIsStructName,
    /// A scale sub-resource needs a status sub-resource.
    ScaleWithoutStatus,
}

/// `c` with an ASCII capital made small.
pub open spec fn ascii_lower_char(c: char) -> char {
    if 'A' <= c && c <= 'Z' {
        ((c as u32) + 32) as char
    } else {
        c
    }
}

pub open spec fn ascii_lower(s: Seq<char>) -> Seq<char> {
    s.map_values(|c: char| ascii_lower_char(c))
}

/// Relies on `str::to_ascii_lowercase`: the same text with the ASCII
/// capitals `A` to `Z` made small and every other character unchanged.
#[verifier::external_body]
fn to_ascii_lowercase(s: &str) -> (r: String)
    ensures
        r@ == ascii_lower(s@),
{
    s.to_ascii_lowercase()
}

pub open spec fn singular_of(d: ResourceDescriptor) -> Seq<char> {
    match d.singular {
        Some(s) => s@,
        None => ascii_lower(d.kind@),
    }
}

pub open spec fn plural_name_of(d: ResourceDescriptor) -> Seq<char> {
    match d.plural {
        Some(p) => p@,
        None => plural_of(singular_of(d)),
    }
}

/// `metadata.name` of the manifest: `<plural>.<group>`.
pub open spec fn crd_name_of(d: ResourceDescriptor) -> Seq<char> {
    plural_name_of(d) + seq!['.'] + d.group@
}

pub open spec fn api_version_of(d: ResourceDescriptor) -> Seq<char> {
    d.group@ + seq!['/'] + d.version@
}

pub open spec fn mode_of(d: ResourceDescriptor) -> SchemaMode {
    match d.schema {
        Some(m) => m,
        None => SchemaMode::Derived,
    }
}

/// The singular name: the one given, else the kind in lower case.
pub fn singular_name(d: &ResourceDescriptor) -> (r: String)
    ensures
        r@ == singular_of(*d),
{
    match &d.singular {
        Some(s) => s.clone(),
        None => to_ascii_lowercase(d.kind.as_str()),
    }
}

/// The plural name: the one given, else the plural of the singular name.
pub fn plural_name(d: &ResourceDescriptor) -> (r: String)
    ensures
        r@ == plural_name_of(*d),
{
    match &d.plural {
        Some(p) => p.clone(),
        None => {
            let s = singular_name(d);
            to_plural(s.as_str())
        },
    }
}

pub fn crd_name(d: &ResourceDescriptor) -> (r: String)
    ensures
        r@ == crd_name_of(*d),
{
    let mut r = plural_name(d);
    r.append(".");
    r.append(d.group.as_str());
    proof {
        reveal_strlit(".");
    }
    r
}

/// `<group>/<version>`.
pub fn api_version(d: &ResourceDescriptor) -> (r: String)
    ensures
        r@ == api_version_of(*d),
{
    let mut r = d.group.clone();
    r.append("/");
    r.append(d.version.as_str());
    proof {
        reveal_strlit("/");
    }
    r
}

pub open spec fn pairs_view(v: Seq<KVTuple>) -> Seq<(Seq<char>, Seq<char>)> {
    v.map_values(|p: KVTuple| (p.0@, p.1@))
}

pub open spec fn opt_scale_view(s: Option<Scale>) -> Option<ScaleView> {
    match s {
        Some(x) => Some(x@),
        None => None,
    }
}

fn clone_pairs(v: &Vec<KVTuple>) -> (r: Vec<KVTuple>)
    ensures
        pairs_view(r@) == pairs_view(v@),
{
    let mut out: Vec<KVTuple> = Vec::new();
    let mut i: usize = 0;
    while i < v.len()
        invariant
            i <= v@.len(),
            pairs_view(out@) =~= pairs_view(v@.subrange(0, i as int)),
        decreases v@.len() - i,
    {
        let ghost before = out@;
        out.push(KVTuple(v[i].0.clone(), v[i].1.clone()));
        assert(pairs_view(out@) =~= pairs_view(before).push((v@[i as int].0@, v@[i as int].1@)));
        assert(v@.subrange(0, i + 1) =~= v@.subrange(0, i as int).push(v@[i as int]));
        i = i + 1;
    }
    assert(v@.subrange(0, i as int) =~= v@);
    out
}

fn clone_opt_scale(s: &Option<Scale>) -> (r: Option<Scale>)
    ensures
        opt_scale_view(r) == opt_scale_view(*s),
{
    match s {
        Some(x) => Some(
            Scale {
                label_selector_path: match &x.label_selector_path {
                    Some(p) => Some(p.clone()),
                    None => None,
                },
                spec_replicas_path: x.spec_replicas_path.clone(),
                status_replicas_path: x.status_replicas_path.clone(),
            },
        ),
        None => None,
    }
}

/// The schema of the resource's root object: its `spec`, its optional
/// `status`, and the resource-wide rules. `apiVersion`, `kind` and
/// `metadata` are checked by the server itself and stay out.
pub open spec fn root_object_view(d: ResourceDescriptor, m: SchemaModel) -> SchemaView {
    let spec = ("spec"@, plain_view(SchemaType::Ref(m.root), None));
    SchemaView {
        properties: match d.status {
            Some(st) => seq![
                spec,
                ("status"@, SchemaView { nullable: true, ..plain_view(SchemaType::Ref(st), None) }),
            ],
            None => seq![spec],
        },
        required: seq!["spec"@],
        validations: composed(d.validations@, RuleScope::Struct),
        ..plain_view(SchemaType::Object, None)
    }
}

/// What the rewriter is given: the built model under the root object.
pub open spec fn schema_input(d: ResourceDescriptor, m: SchemaModel) -> RootView {
    RootView { root: root_object_view(d, m), ..model_view(m) }
}

pub open spec fn root_type_name(d: ResourceDescriptor) -> Seq<char> {
    match d.kind_struct {
        Some(k) => k@,
        None => d.kind@,
    }
}

pub open spec fn name_clash(d: ResourceDescriptor, m: SchemaModel) -> bool {
    root_type_name(d) == m.structs@[m.root as int].name@
}

pub open spec fn scale_without_status(d: ResourceDescriptor) -> bool {
    d.scale is Some && d.status is None
}

/// Generation succeeds: the root struct exists and does not share its name
/// with the root type, a scale sub-resource comes with a status, and, where
/// the manifest carries a schema, the model builds and rewrites.
pub open spec fn generation_ok(d: ResourceDescriptor, m: SchemaModel) -> bool {
    &&& m.root < m.structs@.len()
    &&& !name_clash(d, m)
    &&& !scale_without_status(d)
    &&& mode_of(d).spec_use_in_crd() ==> model_ok(m) && rewritten(schema_input(d, m)) is Some
}

/// `e` is the error that generation reports, checked in the order of
/// `generation_ok`.
pub open spec fn generation_reports(d: ResourceDescriptor, m: SchemaModel, e: GenerationError) -> bool {
    if m.root >= m.structs@.len() {
        e matches GenerationError::Schema(se) && se.kind == SchemaErrorKind::UnknownRoot
    } else if name_clash(d, m) {
        e is KindIsStructName
    } else if scale_without_status(d) {
        e is ScaleWithoutStatus
    } else if !model_ok(m) {
        e matches GenerationError::Schema(se) && model_reports(m, se)
    } else {
        e matches GenerationError::Schema(se) && se.kind == SchemaErrorKind::UnresolvableReference
    }
}

/// `x` is the manifest of resource `d` with fields `m`.
pub open spec fn manifest_of(x: Manifest, d: ResourceDescriptor, m: SchemaModel) -> bool {
    &&& x.name@ == crd_name_of(d)
    &&& pairs_view(x.annotations@) == pairs_view(d.annotations@)
    &&& pairs_view(x.labels@) == pairs_view(d.labels@)
    &&& x.group@ == d.group@
    &&& x.scope == (if d.namespaced { Scope::Namespaced } else { Scope::Cluster })
    &&& x.names.plural@ == plural_name_of(d)
    &&& x.names.singular@ == singular_of(d)
    &&& x.names.kind@ == d.kind@
    &&& strings_view(x.names.short_names@) == strings_view(d.short_names@)
    &&& strings_view(x.names.categories@) == strings_view(d.categories@)
    &&& x.versions@.len() == 1
    &&& version_of(x.versions@[0], d, m)
}

pub open spec fn version_of(v: CrdVersion, d: ResourceDescriptor, m: SchemaModel) -> bool {
    &&& v.name@ == d.version@
    &&& v.served == d.served
    &&& v.storage == d.storage
    &&& v.deprecated == d.deprecated is Some
    &&& opt_string_view(v.deprecation_warning) == match d.deprecated {
        Some(Deprecation::Explicit(w)) => Some(w@),
        _ => None,
    }
    &&& if mode_of(d).spec_use_in_crd() {
        v.schema matches Some(s) && rewritten(schema_input(d, m)) == Some(s@)
    } else {
        v.schema is None
    }
    &&& strings_view(v.printer_columns@) == strings_view(d.printer_columns@)
    &&& strings_view(v.selectable_fields@) == strings_view(d.selectable@)
    &&& v.subresources.status == d.status is Some
    &&& opt_scale_view(v.subresources.scale) == opt_scale_view(d.scale)
}

fn root_object(d: &ResourceDescriptor, m: &SchemaModel) -> (r: SchemaNode)
    ensures
        r@ == root_object_view(*d, *m),
{
    let mut props: Vec<Property> = Vec::new();
    props.push(Property { name: String::from_str("spec"), schema: plain_node(SchemaType::Ref(m.root), None) });
    if let Some(st) = d.status {
        let mut n = plain_node(SchemaType::Ref(st), None);
        let ghost before = n@;
        n.nullable = true;
        assert(n@.properties =~= before.properties);
        props.push(Property { name: String::from_str("status"), schema: n });
    }
    let mut required: Vec<String> = Vec::new();
    required.push(String::from_str("spec"));
    let r = SchemaNode {
        schema_type: SchemaType::Object,
        format: None,
        nullable: false,
        default: None,
        properties: props,
        required,
        items: None,
        additional_properties: None,
        validations: compose(&d.validations, RuleScope::Struct),
        list_type: None,
        list_map_keys: Vec::new(),
        map_type: None,
    };
    proof {
        lemma_properties_view(r);
        assert(r@.properties =~= root_object_view(*d, *m).properties);
        assert(r@.required =~= seq!["spec"@]);
        assert(r@.list_map_keys =~= Seq::<Seq<char>>::empty());
    }
    r
}

/// Generates the manifest of a resource: builds the schema of its field
/// model where the schema mode asks for one, rewrites it into structural
/// form, and assembles names, scope, the single version and its
/// sub-resources.
pub fn generate(d: &ResourceDescriptor, m: &SchemaModel) -> (r: Result<Manifest, GenerationError>)
    ensures
        r is Ok <==> generation_ok(*d, *m),
        r matches Ok(x) ==> manifest_of(x, *d, *m),
        r matches Err(e) ==> generation_reports(*d, *m, e),
{
    if m.root >= m.structs.len() {
        return Err(
            GenerationError::Schema(SchemaError { kind: SchemaErrorKind::UnknownRoot, path: String::new() }),
        );
    }
    let root_name = match &d.kind_struct {
        Some(k) => k.clone(),
        None => d.kind.clone(),
    };
    if root_name == m.structs[m.root].name {
        return Err(GenerationError::KindIsStructName);
    }
    if d.scale.is_some() && d.status.is_none() {
        return Err(GenerationError::ScaleWithoutStatus);
    }
    let mode = match d.schema {
        Some(mode) => mode,
        None => SchemaMode::Derived,
    };
    let schema = if mode.use_in_crd() {
        let mut built = match build(m) {
            Ok(b) => b,
            Err(e) => {
                return Err(GenerationError::Schema(e));
            },
        };
        built.root = root_object(d, m);
        assert(built@ == schema_input(*d, *m));
        match rewrite(&built) {
            Ok(s) => Some(s),
            Err(e) => {
                return Err(GenerationError::Schema(e));
            },
        }
    } else {
        None
    };
    let version = CrdVersion {
        name: d.version.clone(),
        served: d.served,
        storage: d.storage,
        deprecated: d.deprecated.is_some(),
        deprecation_warning: match &d.deprecated {
            Some(Deprecation::Explicit(w)) => Some(w.clone()),
            _ => None,
        },
        schema,
        printer_columns: clone_strings(&d.printer_columns),
        selectable_fields: clone_strings(&d.selectable),
        subresources: Subresources { status: d.status.is_some(), scale: clone_opt_scale(&d.scale) },
    };
    let mut versions: Vec<CrdVersion> = Vec::new();
    versions.push(version);
    let names = Names {
        plural: plural_name(d),
        singular: singular_name(d),
        kind: d.kind.clone(),
        short_names: clone_strings(&d.short_names),
        categories: clone_strings(&d.categories),
    };
    Ok(
        Manifest {
            name: crd_name(d),
            annotations: clone_pairs(&d.annotations),
            labels: clone_pairs(&d.labels),
            group: d.group.clone(),
            scope: if d.namespaced {
                Scope::Namespaced
            } else {
                Scope::Cluster
            },
            names,
            versions,
        },
    )
}

} // verus!
