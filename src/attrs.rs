//! Resource options as the front-end hands them over: the schema mode, the
//! scale sub-resource, key/value metadata pairs, and the defaults of the
//! serving flags.
use vstd::prelude::*;
use crate::cel::opt_string_view;

verus! {

/// Whether the schema is derived from the field model, supplied by hand, or
/// left out of the manifest.
#[derive(Clone, Copy, Debug, PartialEq, Eq, Structural)]
pub enum SchemaMode {
    Disabled,
    Manual,
    Derived,
}

impl SchemaMode {
    /// The schema is generated from the field model.
    pub open spec fn spec_derive(self) -> bool {
        self == SchemaMode::Derived
    }

    /// The manifest carries a schema.
    pub open spec fn spec_use_in_crd(self) -> bool {
        self != SchemaMode::Disabled
    }

    pub fn derive(self) -> (b: bool)
        ensures
            b == self.spec_derive(),
    {
        match self {
            SchemaMode::Disabled => false,
            SchemaMode::Manual => false,
            SchemaMode::Derived => true,
        }
    }

    pub fn use_in_crd(self) -> (b: bool)
        ensures
            b == self.spec_use_in_crd(),
    {
        match self {
            SchemaMode::Disabled => false,
            SchemaMode::Manual => true,
            SchemaMode::Derived => true,
        }
    }

    /// Reads `disabled`, `manual` or `derived`.
    pub fn from_string(value: &str) -> (r: Result<SchemaMode, AttrError>)
        ensures
            value@ == "disabled"@ ==> r == Ok::<SchemaMode, AttrError>(SchemaMode::Disabled),
            value@ == "manual"@ ==> r == Ok::<SchemaMode, AttrError>(SchemaMode::Manual),
            value@ == "derived"@ ==> r == Ok::<SchemaMode, AttrError>(SchemaMode::Derived),
            value@ != "disabled"@ && value@ != "manual"@ && value@ != "derived"@ ==> (r matches Err(
                e,
            ) && e.kind == AttrErrorKind::UnknownValue && e.text@ == value@),
    {
        proof {
            reveal_strlit("disabled");
            reveal_strlit("manual");
            reveal_strlit("derived");
            assert("manual"@.len() != "disabled"@.len());
            assert("derived"@.len() != "disabled"@.len());
            assert("derived"@.len() != "manual"@.len());
        }
        let v = String::from_str(value);
        if v == String::from_str("disabled") {
            Ok(SchemaMode::Disabled)
        } else if v == String::from_str("manual") {
            Ok(SchemaMode::Manual)
        } else if v == String::from_str("derived") {
            Ok(SchemaMode::Derived)
        } else {
            Err(AttrError { kind: AttrErrorKind::UnknownValue, text: v })
        }
    }
}

/// `storage` is on unless the resource says otherwise.
pub fn default_storage_arg() -> (b: bool)
    ensures
        b,
{
    true
}

/// `served` is on unless the resource says otherwise.
pub fn default_served_arg() -> (b: bool)
    ensures
        b,
{
    true
}

/// The kinds of error in a resource option.
#[derive(Clone, Copy, Debug, PartialEq, Eq, Structural)]
pub enum AttrErrorKind {
    UnknownValue,
    UnknownField,
    DuplicateField,
    MissingField,
    UnsupportedFormat,
    UnexpectedType,
    /// The value's own parser refused it; the text is its message.
    Custom,
}

/// An error in a resource option, with the name, value or format it is about.
#[derive(Debug)]
pub struct AttrError {
    pub kind: AttrErrorKind,
    pub text: String,
}

pub struct AttrErrorView {
    pub kind: AttrErrorKind,
    pub text: Seq<char>,
}

impl View for AttrError {
    type V = AttrErrorView;

    open spec fn view(&self) -> AttrErrorView {
        AttrErrorView { kind: self.kind, text: self.text@ }
    }
}

/// A literal in an option list.
#[derive(Debug)]
pub enum Lit {
    Str(String),
    /// Any literal that is not a string.
    Other,
}

/// One entry of an option list: `name = value`, or a bare literal.
#[derive(Debug)]
pub enum MetaItem {
    NameValue(String, Lit),
    Literal(Lit),
}

pub open spec fn is_str_literal(m: MetaItem) -> bool {
    m matches MetaItem::Literal(Lit::Str(_))
}

pub open spec fn str_literal(m: MetaItem) -> Seq<char> {
    match m {
        MetaItem::Literal(Lit::Str(s)) => s@,
        _ => Seq::empty(),
    }
}

/// A key/value pair of resource metadata (an annotation or a label).
#[derive(Debug)]
pub struct KVTuple(pub String, pub String);

impl KVTuple {
    /// Reads the pair from an option list of exactly two string literals.
    pub fn from_list(items: &Vec<MetaItem>) -> (r: Result<KVTuple, AttrError>)
        ensures
            r is Ok <==> (items@.len() == 2 && is_str_literal(items@[0]) && is_str_literal(items@[1])),
            r matches Ok(kv) ==> kv.0@ == str_literal(items@[0]) && kv.1@ == str_literal(items@[1]),
            r matches Err(e) ==> e.kind == AttrErrorKind::UnsupportedFormat,
    {
        if items.len() == 2 {
            if let (MetaItem::Literal(Lit::Str(k)), MetaItem::Literal(Lit::Str(v))) = (
                &items[0],
                &items[1],
            ) {
                return Ok(KVTuple(k.clone(), v.clone()));
            }
        }
        Err(
            AttrError {
                kind: AttrErrorKind::UnsupportedFormat,
                text: String::from_str("expected `\"key\", \"value\"` format"),
            },
        )
    }
}

/// The scale sub-resource: where the label selector and the replica
/// counts stand in the resource.
#[derive(Debug)]
pub struct Scale {
    pub label_selector_path: Option<String>,
    pub spec_replicas_path: String,
    pub status_replicas_path: String,
}

pub struct ScaleView {
    pub label_selector_path: Option<Seq<char>>,
    pub spec_replicas_path: Seq<char>,
    pub status_replicas_path: Seq<char>,
}

impl View for Scale {
    type V = ScaleView;

    open spec fn view(&self) -> ScaleView {
        ScaleView {
            label_selector_path: opt_string_view(self.label_selector_path),
            spec_replicas_path: self.spec_replicas_path@,
            status_replicas_path: self.status_replicas_path@,
        }
    }
}

/// Where reading a scale option list stands after some of its items: for
/// each path whether it was given and the value read, and the errors so far.
pub struct ScaleParse {
    pub label_seen: bool,
    pub label: Option<Seq<char>>,
    pub spec_seen: bool,
    pub spec: Option<Seq<char>>,
    pub status_seen: bool,
    pub status: Option<Seq<char>>,
    pub errors: Seq<AttrErrorView>,
}

pub open spec fn error_of(kind: AttrErrorKind, text: Seq<char>) -> AttrErrorView {
    AttrErrorView { kind, text }
}

/// The value of a path option: a string literal, or an error.
pub open spec fn lit_value(l: Lit) -> Option<Seq<char>> {
    match l {
        Lit::Str(s) => Some(s@),
        Lit::Other => None,
    }
}

/// Reads one item. A path given twice, an unknown name, a bare literal and
/// a value that is not a string each add an error; nothing stops the reading.
pub open spec fn scale_step(st: ScaleParse, item: MetaItem) -> ScaleParse {
    match item {
        MetaItem::NameValue(name, lit) => {
            let v = lit_value(lit);
            let errors = if v is None {
                st.errors.push(error_of(AttrErrorKind::UnexpectedType, name@))
            } else {
                st.errors
            };
            if name@ == "label_selector_path"@ {
                if !st.label_seen {
                    ScaleParse { label_seen: true, label: v, errors, ..st }
                } else {
                    ScaleParse { errors: st.errors.push(error_of(AttrErrorKind::DuplicateField, name@)), ..st }
                }
            } else if name@ == "spec_replicas_path"@ {
                if !st.spec_seen {
                    ScaleParse { spec_seen: true, spec: v, errors, ..st }
                } else {
                    ScaleParse { errors: st.errors.push(error_of(AttrErrorKind::DuplicateField, name@)), ..st }
                }
            } else if name@ == "status_replicas_path"@ {
                if !st.status_seen {
                    ScaleParse { status_seen: true, status: v, errors, ..st }
                } else {
                    ScaleParse { errors: st.errors.push(error_of(AttrErrorKind::DuplicateField, name@)), ..st }
                }
            } else {
                ScaleParse { errors: st.errors.push(error_of(AttrErrorKind::UnknownField, name@)), ..st }
            }
        },
        MetaItem::Literal(_) => ScaleParse {
            errors: st.errors.push(error_of(AttrErrorKind::UnsupportedFormat, "literal"@)),
            ..st
        },
    }
}

pub open spec fn scale_start() -> ScaleParse {
    ScaleParse {
        label_seen: false,
        label: None,
        spec_seen: false,
        spec: None,
        status_seen: false,
        status: None,
        errors: Seq::empty(),
    }
}

pub open spec fn scale_read(items: Seq<MetaItem>) -> ScaleParse
    decreases items.len(),
{
    if items.len() == 0 {
        scale_start()
    } else {
        scale_step(scale_read(items.drop_last()), items.last())
    }
}

/// After the last item: the two replica paths must have been given.
pub open spec fn scale_finish(st: ScaleParse) -> ScaleParse {
    let e1 = if !st.spec_seen {
        st.errors.push(error_of(AttrErrorKind::MissingField, "spec_replicas_path"@))
    } else {
        st.errors
    };
    let e2 = if !st.status_seen {
        e1.push(error_of(AttrErrorKind::MissingField, "status_replicas_path"@))
    } else {
        e1
    };
    ScaleParse { errors: e2, ..st }
}

pub open spec fn errors_view(v: Seq<AttrError>) -> Seq<AttrErrorView> {
    v.map_values(|e: AttrError| e@)
}

/// A path that was given without a value has left an error behind.
proof fn lemma_scale_read(items: Seq<MetaItem>)
    ensures
        scale_read(items).spec_seen && scale_read(items).spec is None ==> scale_read(items).errors.len() > 0,
        scale_read(items).status_seen && scale_read(items).status is None ==> scale_read(items).errors.len() > 0,
    decreases items.len(),
{
    if items.len() > 0 {
        lemma_scale_read(items.drop_last());
    }
}

fn lit_string(l: &Lit) -> (r: Option<String>)
    ensures
        opt_string_view(r) == lit_value(*l),
{
    match l {
        Lit::Str(s) => Some(s.clone()),
        Lit::Other => None,
    }
}

fn attr_error(kind: AttrErrorKind, text: &str) -> (e: AttrError)
    ensures
        e@ == error_of(kind, text@),
{
    AttrError { kind, text: String::from_str(text) }
}

impl Scale {
    /// Reads the scale sub-resource from its option list. Every error is
    /// reported, in the order of the items, then the missing paths.
    pub fn from_list(items: &Vec<MetaItem>) -> (r: Result<Scale, Vec<AttrError>>)
        ensures
            ({
                let st = scale_finish(scale_read(items@));
                &&& r is Ok <==> st.errors.len() == 0
                &&& r matches Ok(s) ==> s@ == (ScaleView {
                    label_selector_path: st.label,
                    spec_replicas_path: st.spec.unwrap(),
                    status_replicas_path: st.status.unwrap(),
                })
                &&& r matches Err(es) ==> errors_view(es@) == st.errors
            }),
    {
        let mut label_seen = false;
        let mut label: Option<String> = None;
        let mut spec_seen = false;
        let mut spec: Option<String> = None;
        let mut status_seen = false;
        let mut status: Option<String> = None;
        let mut errors: Vec<AttrError> = Vec::new();
        let l_name = String::from_str("label_selector_path");
        let sp_name = String::from_str("spec_replicas_path");
        let st_name = String::from_str("status_replicas_path");
        let mut i: usize = 0;
        while i < items.len()
            invariant
                i <= items@.len(),
                l_name@ == "label_selector_path"@,
                sp_name@ == "spec_replicas_path"@,
                st_name@ == "status_replicas_path"@,
                ({
                    let st = scale_read(items@.subrange(0, i as int));
                    &&& st.label_seen == label_seen
                    &&& st.label == opt_string_view(label)
                    &&& st.spec_seen == spec_seen
                    &&& st.spec == opt_string_view(spec)
                    &&& st.status_seen == status_seen
                    &&& st.status == opt_string_view(status)
                    &&& st.errors == errors_view(errors@)
                }),
            decreases items@.len() - i,
        {
            let ghost prev = items@.subrange(0, i as int);
            assert(items@.subrange(0, i + 1).drop_last() =~= prev);
            let ghost e0 = errors@;
            match &items[i] {
                MetaItem::NameValue(name, lit) => {
                    let v = lit_string(lit);
                    if *name == l_name {
                        if !label_seen {
                            if v.is_none() {
                                errors.push(attr_error(AttrErrorKind::UnexpectedType, name.as_str()));
                            }
                            label_seen = true;
                            label = v;
                        } else {
                            errors.push(attr_error(AttrErrorKind::DuplicateField, name.as_str()));
                        }
                    } else if *name == sp_name {
                        if !spec_seen {
                            if v.is_none() {
                                errors.push(attr_error(AttrErrorKind::UnexpectedType, name.as_str()));
                            }
                            spec_seen = true;
                            spec = v;
                        } else {
                            errors.push(attr_error(AttrErrorKind::DuplicateField, name.as_str()));
                        }
                    } else if *name == st_name {
                        if !status_seen {
                            if v.is_none() {
                                errors.push(attr_error(AttrErrorKind::UnexpectedType, name.as_str()));
                            }
                            status_seen = true;
                            status = v;
                        } else {
                            errors.push(attr_error(AttrErrorKind::DuplicateField, name.as_str()));
                        }
                    } else {
                        errors.push(attr_error(AttrErrorKind::UnknownField, name.as_str()));
                    }
                },
                MetaItem::Literal(_) => {
                    errors.push(attr_error(AttrErrorKind::UnsupportedFormat, "literal"));
                },
            }
            assert(errors_view(errors@) =~= scale_read(items@.subrange(0, i + 1)).errors) by {
                if errors@.len() > e0.len() {
                    assert(errors@ == e0.push(errors@.last()));
                    assert(errors_view(errors@) =~= errors_view(e0).push(errors@.last()@));
                } else {
                    assert(errors@ == e0);
                }
            }
            i = i + 1;
        }
        assert(items@.subrange(0, i as int) =~= items@);
        proof {
            lemma_scale_read(items@);
        }
        let ghost e0 = errors@;
        if !spec_seen {
            errors.push(attr_error(AttrErrorKind::MissingField, "spec_replicas_path"));
        }
        let ghost e1 = errors@;
        if !status_seen {
            errors.push(attr_error(AttrErrorKind::MissingField, "status_replicas_path"));
        }
        assert(errors_view(errors@) =~= scale_finish(scale_read(items@)).errors) by {
            if !spec_seen {
                assert(errors_view(e1) =~= errors_view(e0).push(e1.last()@));
            }
            if !status_seen {
                assert(errors_view(errors@) =~= errors_view(e1).push(errors@.last()@));
            }
        }
        if errors.len() > 0 {
            return Err(errors);
        }
        match (spec, status) {
            (Some(sp), Some(st)) => Ok(Scale { label_selector_path: label, spec_replicas_path: sp, status_replicas_path: st }),
            _ => Err(errors),
        }
    }
}

} // verus!
