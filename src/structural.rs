//! The structural rewrite: the form of schema that the Kubernetes API server
//! accepts, with every reference inlined and no meta-schema identifier.
use vstd::prelude::*;
use crate::builder::{SchemaError, SchemaErrorKind};
use crate::cel::{clone_entry, clone_entries, clone_opt_string, entries_view};
use crate::schema::{
    Property, RootSchema, RootView, SchemaNode, SchemaType, SchemaView, clone_strings, empty_view,
    lemma_properties_view, nodes_view,
};

verus! {

broadcast use vstd::std_specs::vec::axiom_vec_decreases_to_view, vstd::seq::axiom_seq_index_decreases;

/// A definition placed at a reference site. The copy is nullable where the
/// site is (an optional field of struct type); the site's default, rules
/// and object merge type stand on the copy too.
pub open spec fn placed(site: SchemaView, def: SchemaView) -> SchemaView {
    SchemaView {
        nullable: def.nullable || site.nullable,
        default: if site.default is Some {
            site.default
        } else {
            def.default
        },
        validations: def.validations + site.validations,
        map_type: if site.map_type is Some {
            site.map_type
        } else {
            def.map_type
        },
        ..def
    }
}

/// Every reference reachable from `n` resolves within `fuel` steps of
/// following references. With `fuel` the number of definitions, this fails
/// exactly where a reference names no definition or a chain of references
/// comes back to a definition that it passed.
pub open spec fn inlines(n: SchemaView, defs: Seq<SchemaView>, fuel: nat) -> bool
    decreases fuel, n,
{
    match n.schema_type {
        SchemaType::Ref(k) => fuel > 0 && k < defs.len() && inlines(defs[k as int], defs, (fuel - 1) as nat),
        _ => {
            &&& forall|i: int| 0 <= i < n.properties.len() ==> inlines(#[trigger] n.properties[i].1, defs, fuel)
            &&& (n.items matches Some(b) ==> inlines(*b, defs, fuel))
            &&& (n.additional_properties matches Some(b) ==> inlines(*b, defs, fuel))
        },
    }
}

/// `n` with every reference replaced by a copy of what it names.
pub open spec fn inlined(n: SchemaView, defs: Seq<SchemaView>, fuel: nat) -> SchemaView
    decreases fuel, n,
{
    match n.schema_type {
        SchemaType::Ref(k) => if fuel > 0 && k < defs.len() {
            placed(n, inlined(defs[k as int], defs, (fuel - 1) as nat))
        } else {
            n
        },
        _ => SchemaView {
            properties: Seq::new(
                n.properties.len(),
                |i: int|
                    if 0 <= i < n.properties.len() {
                        (n.properties[i].0, inlined(n.properties[i].1, defs, fuel))
                    } else {
                        (Seq::empty(), empty_view())
                    },
            ),
            items: match n.items {
                Some(b) => Some(Box::new(inlined(*b, defs, fuel))),
                None => None,
            },
            additional_properties: match n.additional_properties {
                Some(b) => Some(Box::new(inlined(*b, defs, fuel))),
                None => None,
            },
            ..n
        },
    }
}

/// No reference anywhere in `n`.
pub open spec fn ref_free(n: SchemaView) -> bool
    decreases n,
{
    &&& !(n.schema_type is Ref)
    &&& forall|i: int| 0 <= i < n.properties.len() ==> ref_free(#[trigger] n.properties[i].1)
    &&& (n.items matches Some(b) ==> ref_free(*b))
    &&& (n.additional_properties matches Some(b) ==> ref_free(*b))
}

/// The structural form of a schema, where every reference resolves.
pub open spec fn rewritten(x: RootView) -> Option<RootView> {
    if inlines(x.root, x.definitions, x.definitions.len()) {
        Some(
            RootView {
                meta_schema: None,
                root: inlined(x.root, x.definitions, x.definitions.len()),
                definitions: Seq::empty(),
            },
        )
    } else {
        None
    }
}

proof fn lemma_inlined_ref_free(n: SchemaView, defs: Seq<SchemaView>, fuel: nat)
    requires
        inlines(n, defs, fuel),
    ensures
        ref_free(inlined(n, defs, fuel)),
    decreases fuel, n,
{
    match n.schema_type {
        SchemaType::Ref(k) => {
            lemma_inlined_ref_free(defs[k as int], defs, (fuel - 1) as nat);
        },
        _ => {
            let r = inlined(n, defs, fuel);
            assert forall|i: int| 0 <= i < r.properties.len() implies ref_free(
                #[trigger] r.properties[i].1,
            ) by {
                lemma_inlined_ref_free(n.properties[i].1, defs, fuel);
            }
            if let Some(b) = n.items {
                lemma_inlined_ref_free(*b, defs, fuel);
            }
            if let Some(b) = n.additional_properties {
                lemma_inlined_ref_free(*b, defs, fuel);
            }
        },
    }
}

proof fn lemma_ref_free_fixed(n: SchemaView, defs: Seq<SchemaView>, fuel: nat)
    requires
        ref_free(n),
    ensures
        inlines(n, defs, fuel),
        inlined(n, defs, fuel) == n,
    decreases n,
{
    assert forall|i: int| 0 <= i < n.properties.len() implies inlines(
        #[trigger] n.properties[i].1,
        defs,
        fuel,
    ) && inlined(n.properties[i].1, defs, fuel) == n.properties[i].1 by {
        lemma_ref_free_fixed(n.properties[i].1, defs, fuel);
    }
    if let Some(b) = n.items {
        lemma_ref_free_fixed(*b, defs, fuel);
    }
    if let Some(b) = n.additional_properties {
        lemma_ref_free_fixed(*b, defs, fuel);
    }
    assert(inlined(n, defs, fuel).properties =~= n.properties);
}

/// Rewriting is idempotent: the structural form of a schema is its own
/// structural form. It holds no reference and no definitions.
pub proof fn law_rewrite_idempotent(x: RootView)
    requires
        rewritten(x) is Some,
    ensures
        ref_free(rewritten(x).unwrap().root),
        rewritten(rewritten(x).unwrap()) == rewritten(x),
{
    let y = rewritten(x).unwrap();
    lemma_inlined_ref_free(x.root, x.definitions, x.definitions.len());
    lemma_ref_free_fixed(y.root, y.definitions, 0);
}

/// Inlines the references reachable from `n`; `None` where one does not
/// resolve within `fuel` steps.
pub fn inline_node(n: &SchemaNode, defs: &Vec<SchemaNode>, fuel: usize) -> (r: Option<SchemaNode>)
    ensures
        r is Some <==> inlines(n@, nodes_view(defs@), fuel as nat),
        r matches Some(x) ==> x@ == inlined(n@, nodes_view(defs@), fuel as nat),
    decreases fuel, n,
{
    let ghost dv = nodes_view(defs@);
    match n.schema_type {
        SchemaType::Ref(k) => {
            if fuel == 0 || k >= defs.len() {
                return None;
            }
            assert(dv[k as int] == defs@[k as int]@);
            let mut x = match inline_node(&defs[k], defs, fuel - 1) {
                Some(x) => x,
                None => {
                    return None;
                },
            };
            let ghost xv = x@;
            x.nullable = x.nullable || n.nullable;
            if n.default.is_some() {
                x.default = clone_opt_string(&n.default);
            }
            let mut i: usize = 0;
            while i < n.validations.len()
                invariant
                    i <= n.validations@.len(),
                    x.schema_type == xv.schema_type,
                    x.format == xv.format,
                    x.nullable == (xv.nullable || n.nullable),
                    x@.default == (if n@.default is Some { n@.default } else { xv.default }),
                    x@.properties == xv.properties,
                    x@.required == xv.required,
                    x@.items == xv.items,
                    x@.additional_properties == xv.additional_properties,
                    x@.list_type == xv.list_type,
                    x@.list_map_keys == xv.list_map_keys,
                    x.map_type == xv.map_type,
                    entries_view(x.validations@) =~= xv.validations + entries_view(
                        n.validations@.subrange(0, i as int),
                    ),
                decreases n.validations@.len() - i,
            {
                let ghost before = x.validations@;
                let ghost xb = x@;
                x.validations.push(clone_entry(&n.validations[i]));
                assert(x@.properties =~= xb.properties);
                assert(entries_view(x.validations@) =~= entries_view(before).push(n.validations@[i as int]@));
                assert(n.validations@.subrange(0, i + 1) =~= n.validations@.subrange(0, i as int).push(
                    n.validations@[i as int],
                ));
                i = i + 1;
            }
            assert(n.validations@.subrange(0, i as int) =~= n.validations@);
            if n.map_type.is_some() {
                let ghost xb = x@;
                x.map_type = n.map_type;
                assert(x@.properties =~= xb.properties);
            }
            assert(x@ =~= placed(n@, xv));
            Some(x)
        },
        _ => {
            let mut props: Vec<Property> = Vec::new();
            let mut i: usize = 0;
            while i < n.properties.len()
                invariant
                    dv == nodes_view(defs@),
                    !(n.schema_type is Ref),
                    i <= n.properties@.len(),
                    props@.len() == i,
                    forall|j: int|
                        0 <= j < i ==> inlines(#[trigger] n@.properties[j].1, dv, fuel as nat),
                    forall|j: int|
                        0 <= j < i ==> (#[trigger] props@[j]).name@ == n@.properties[j].0
                            && props@[j].schema@ == inlined(n@.properties[j].1, dv, fuel as nat),
                decreases n.properties@.len() - i,
            {
                let p = &n.properties[i];
                proof {
                    lemma_properties_view(*n);
                    assert(n@.properties[i as int].1 == p.schema@);
                }
                match inline_node(&p.schema, defs, fuel) {
                    Some(c) => {
                        props.push(Property { name: p.name.clone(), schema: c });
                    },
                    None => {
                        return None;
                    },
                }
                i = i + 1;
            }
            proof {
                lemma_properties_view(*n);
            }
            let items = match &n.items {
                Some(b) => match inline_node(b, defs, fuel) {
                    Some(c) => Some(Box::new(c)),
                    None => {
                        return None;
                    },
                },
                None => None,
            };
            let additional_properties = match &n.additional_properties {
                Some(b) => match inline_node(b, defs, fuel) {
                    Some(c) => Some(Box::new(c)),
                    None => {
                        return None;
                    },
                },
                None => None,
            };
            let x = SchemaNode {
                schema_type: n.schema_type,
                format: n.format,
                nullable: n.nullable,
                default: clone_opt_string(&n.default),
                properties: props,
                required: clone_strings(&n.required),
                items,
                additional_properties,
                validations: clone_entries(&n.validations),
                list_type: n.list_type,
                list_map_keys: clone_strings(&n.list_map_keys),
                map_type: n.map_type,
            };
            proof {
                lemma_properties_view(x);
                assert(x@.properties =~= inlined(n@, dv, fuel as nat).properties);
                assert(x@ =~= inlined(n@, dv, fuel as nat));
            }
            Some(x)
        },
    }
}

/// Rewrites a schema into structural form: every reference is replaced by a
/// copy of its definition, the definitions are dropped, and so is the
/// meta-schema identifier. Fails where a reference names no definition or
/// lies on a cycle.
pub fn rewrite(x: &RootSchema) -> (r: Result<RootSchema, SchemaError>)
    ensures
        r is Ok <==> rewritten(x@) is Some,
        r matches Ok(y) ==> rewritten(x@) == Some(y@) && ref_free(y@.root),
        r matches Err(e) ==> e.kind == SchemaErrorKind::UnresolvableReference,
{
    match inline_node(&x.root, &x.definitions, x.definitions.len()) {
        Some(root) => {
            proof {
                lemma_inlined_ref_free(x@.root, x@.definitions, x@.definitions.len());
            }
            let y = RootSchema { meta_schema: None, root, definitions: Vec::new() };
            assert(y@.definitions =~= Seq::<SchemaView>::empty());
            Ok(y)
        },
        None => Err(SchemaError { kind: SchemaErrorKind::UnresolvableReference, path: String::new() }),
    }
}

} // verus!
