//! The schema tree and its mathematical view.
use vstd::prelude::*;
use crate::cel::{EntryView, ValidationEntry, entries_view, opt_string_view};

verus! {

broadcast use vstd::std_specs::vec::axiom_vec_decreases_to_view, vstd::seq::axiom_seq_index_decreases;

/// The JSON Schema `type` of a node, or a reference to a shared definition.
#[derive(Clone, Copy, Debug, PartialEq, Eq, Structural)]
pub enum SchemaType {
    String,
    Boolean,
    Integer,
    Number,
    Array,
    Object,
    /// A reference to the definition with this index.
    Ref(usize),
}

/// The JSON Schema `format` of a numeric node.
#[derive(Clone, Copy, Debug, PartialEq, Eq, Structural)]
pub enum Format {
    Int32,
    Int64,
    UInt32,
    UInt64,
    Double,
}

/// How server-side apply merges a list.
#[derive(Clone, Copy, Debug, PartialEq, Eq, Structural)]
pub enum ListType {
    Atomic,
    /// Items merge by value: `x-kubernetes-list-type: set`.
    ValueSet,
    /// Items merge by their key fields: `x-kubernetes-list-type: map`.
    KeyedMap,
}

/// How server-side apply merges an object.
#[derive(Clone, Copy, Debug, PartialEq, Eq, Structural)]
pub enum MapType {
    Atomic,
    Granular,
}

/// One node of a schema tree.
#[derive(Debug)]
pub struct SchemaNode {
    pub schema_type: SchemaType,
    pub format: Option<Format>,
    pub nullable: bool,
    /// The default value, as JSON text.
    pub default: Option<String>,
    pub properties: Vec<Property>,
    pub required: Vec<String>,
    pub items: Option<Box<SchemaNode>>,
    pub additional_properties: Option<Box<SchemaNode>>,
    pub validations: Vec<ValidationEntry>,
    pub list_type: Option<ListType>,
    pub list_map_keys: Vec<String>,
    pub map_type: Option<MapType>,
}

/// A named child of an object node.
#[derive(Debug)]
pub struct Property {
    pub name: String,
    pub schema: SchemaNode,
}

/// The mathematical value of a schema node.
pub struct SchemaView {
    pub schema_type: SchemaType,
    pub format: Option<Format>,
    pub nullable: bool,
    pub default: Option<Seq<char>>,
    pub properties: Seq<(Seq<char>, SchemaView)>,
    pub required: Seq<Seq<char>>,
    pub items: Option<Box<SchemaView>>,
    pub additional_properties: Option<Box<SchemaView>>,
    pub validations: Seq<EntryView>,
    pub list_type: Option<ListType>,
    pub list_map_keys: Seq<Seq<char>>,
    pub map_type: Option<MapType>,
}

pub open spec fn strings_view(v: Seq<String>) -> Seq<Seq<char>> {
    v.map_values(|s: String| s@)
}

pub open spec fn empty_view() -> SchemaView {
    SchemaView {
        schema_type: SchemaType::Object,
        format: None,
        nullable: false,
        default: None,
        properties: Seq::empty(),
        required: Seq::empty(),
        items: None,
        additional_properties: None,
        validations: Seq::empty(),
        list_type: None,
        list_map_keys: Seq::empty(),
        map_type: None,
    }
}

pub open spec fn schema_view(n: SchemaNode) -> SchemaView
    decreases n,
{
    SchemaView {
        schema_type: n.schema_type,
        format: n.format,
        nullable: n.nullable,
        default: opt_string_view(n.default),
        properties: Seq::new(
            n.properties@.len(),
            |i: int|
                if 0 <= i < n.properties@.len() {
                    (n.properties@[i].name@, schema_view(n.properties@[i].schema))
                } else {
                    (Seq::empty(), empty_view())
                },
        ),
        required: strings_view(n.required@),
        items: match n.items {
            Some(b) => Some(Box::new(schema_view(*b))),
            None => None,
        },
        additional_properties: match n.additional_properties {
            Some(b) => Some(Box::new(schema_view(*b))),
            None => None,
        },
        validations: entries_view(n.validations@),
        list_type: n.list_type,
        list_map_keys: strings_view(n.list_map_keys@),
        map_type: n.map_type,
    }
}

impl View for SchemaNode {
    type V = SchemaView;

    open spec fn view(&self) -> SchemaView {
        schema_view(*self)
    }
}

pub open spec fn properties_view(v: Seq<Property>) -> Seq<(Seq<char>, SchemaView)> {
    v.map_values(|p: Property| (p.name@, p.schema@))
}

/// The view of a node's properties, written over its `Property` values.
pub proof fn lemma_properties_view(n: SchemaNode)
    ensures
        n@.properties == properties_view(n.properties@),
{
    assert(n@.properties =~= properties_view(n.properties@));
}

/// A copy of a list of strings.
pub fn clone_strings(v: &Vec<String>) -> (r: Vec<String>)
    ensures
        strings_view(r@) == strings_view(v@),
{
    let mut out: Vec<String> = Vec::new();
    let mut i: usize = 0;
    while i < v.len()
        invariant
            i <= v@.len(),
            strings_view(out@) =~= strings_view(v@.subrange(0, i as int)),
        decreases v@.len() - i,
    {
        let ghost before = out@;
        out.push(v[i].clone());
        assert(strings_view(out@) =~= strings_view(before).push(v@[i as int]@));
        assert(v@.subrange(0, i + 1) =~= v@.subrange(0, i as int).push(v@[i as int]));
        i = i + 1;
    }
    assert(v@.subrange(0, i as int) =~= v@);
    out
}

/// A node of the given type and format with nothing else set.
pub open spec fn plain_view(t: SchemaType, f: Option<Format>) -> SchemaView {
    SchemaView { schema_type: t, format: f, ..empty_view() }
}

/// A node of the given type and format with nothing else set.
pub fn plain_node(t: SchemaType, f: Option<Format>) -> (r: SchemaNode)
    ensures
        r@ == plain_view(t, f),
{
    let r = SchemaNode {
        schema_type: t,
        format: f,
        nullable: false,
        default: None,
        properties: Vec::new(),
        required: Vec::new(),
        items: None,
        additional_properties: None,
        validations: Vec::new(),
        list_type: None,
        list_map_keys: Vec::new(),
        map_type: None,
    };
    proof {
        assert(r@.properties =~= Seq::<(Seq<char>, SchemaView)>::empty());
        assert(r@.required =~= Seq::<Seq<char>>::empty());
        assert(r@.validations =~= Seq::<EntryView>::empty());
        assert(r@.list_map_keys =~= Seq::<Seq<char>>::empty());
    }
    r
}

/// A whole schema: the root node, the shared definitions that references
/// point into, and the meta-schema identifier.
#[derive(Debug)]
pub struct RootSchema {
    pub meta_schema: Option<String>,
    pub root: SchemaNode,
    pub definitions: Vec<SchemaNode>,
}

pub struct RootView {
    pub meta_schema: Option<Seq<char>>,
    pub root: SchemaView,
    pub definitions: Seq<SchemaView>,
}

pub open spec fn nodes_view(v: Seq<SchemaNode>) -> Seq<SchemaView> {
    v.map_values(|n: SchemaNode| n@)
}

impl View for RootSchema {
    type V = RootView;

    open spec fn view(&self) -> RootView {
        RootView {
            meta_schema: opt_string_view(self.meta_schema),
            root: self.root@,
            definitions: nodes_view(self.definitions@),
        }
    }
}

} // verus!
