//! The defaulting and nullability policy: how a field's value travels on the
//! wire and what a reader makes of an absent or `null` field. The API server
//! applies the same rules when it admits an object.
use vstd::prelude::*;
use crate::cel::opt_string_view;
use crate::field::{FieldDescriptor, defaulting_valid, is_nullable, is_optional, is_required};

verus! {

/// How a field stands in a payload.
#[derive(Debug)]
pub enum Wire {
    /// The field is left out.
    Missing,
    /// The field is written as an explicit `null`.
    Null,
    /// The field carries a value (as JSON text).
    Present(String),
}

pub enum WireView {
    Missing,
    Null,
    Present(Seq<char>),
}

impl View for Wire {
    type V = WireView;

    open spec fn view(&self) -> WireView {
        match self {
            Wire::Missing => WireView::Missing,
            Wire::Null => WireView::Null,
            Wire::Present(v) => WireView::Present(v@),
        }
    }
}

/// The three facts about a field that decide its defaulting category.
#[derive(Debug)]
pub struct FieldPolicy {
    pub nullable: bool,
    /// The default value, as JSON text.
    pub default: Option<String>,
    /// An empty value is left out of the payload instead of written as `null`.
    pub skip_if_none: bool,
}

/// The reader could not fill a field that is required.
#[derive(Clone, Copy, Debug, PartialEq, Eq, Structural)]
pub enum DefaultingError {
    RequiredValue,
}

/// One of the six reachable categories: a non-nullable field is never
/// skipped as empty.
pub open spec fn policy_valid(p: FieldPolicy) -> bool {
    p.nullable || !p.skip_if_none
}

/// A value that the field can hold: a non-nullable field is never empty.
pub open spec fn value_valid(p: FieldPolicy, v: Option<Seq<char>>) -> bool {
    p.nullable || v is Some
}

pub open spec fn default_view(p: FieldPolicy) -> Option<Seq<char>> {
    match p.default {
        Some(d) => Some(d@),
        None => None,
    }
}

/// What the writer puts on the wire for value `v` (`None` is empty).
pub open spec fn serialized(p: FieldPolicy, v: Option<Seq<char>>) -> WireView {
    match v {
        Some(x) => WireView::Present(x),
        None => if p.skip_if_none {
            WireView::Missing
        } else {
            WireView::Null
        },
    }
}

/// What the reader makes of the wire. A missing field takes the default. An
/// explicit `null` is pruned on a non-nullable field (so it, too, takes the
/// default) and kept as empty on a nullable one: no defaulting then. A
/// non-nullable field without a default cannot be filled.
pub open spec fn deserialized(p: FieldPolicy, w: WireView) -> Result<Option<Seq<char>>, DefaultingError> {
    match w {
        WireView::Present(x) => Ok(Some(x)),
        WireView::Null => if p.nullable {
            Ok(None)
        } else if p.default is Some {
            Ok(default_view(p))
        } else {
            Err(DefaultingError::RequiredValue)
        },
        WireView::Missing => if p.default is Some {
            Ok(default_view(p))
        } else if p.nullable {
            Ok(None)
        } else {
            Err(DefaultingError::RequiredValue)
        },
    }
}

/// The value documented for each category after a write and a read: a
/// value comes back as it was; an empty value comes back empty, but for a
/// nullable field with a default that is skipped when empty, which is read
/// back as its default.
pub open spec fn round_tripped(p: FieldPolicy, v: Option<Seq<char>>) -> Option<Seq<char>> {
    match v {
        Some(x) => Some(x),
        None => if p.skip_if_none && p.default is Some {
            default_view(p)
        } else {
            None
        },
    }
}

/// Writes value `v` of a field.
pub fn serialize(p: &FieldPolicy, v: &Option<String>) -> (w: Wire)
    requires
        policy_valid(*p),
        value_valid(*p, opt_string_view(*v)),
    ensures
        w@ == serialized(*p, opt_string_view(*v)),
{
    match v {
        Some(x) => Wire::Present(x.clone()),
        None => if p.skip_if_none {
            Wire::Missing
        } else {
            Wire::Null
        },
    }
}

fn clone_default(p: &FieldPolicy) -> (r: Option<String>)
    ensures
        opt_string_view(r) == default_view(*p),
{
    match &p.default {
        Some(d) => Some(d.clone()),
        None => None,
    }
}

/// Reads a field from the wire.
pub fn deserialize(p: &FieldPolicy, w: &Wire) -> (r: Result<Option<String>, DefaultingError>)
    requires
        policy_valid(*p),
    ensures
        match (r, deserialized(*p, w@)) {
            (Ok(v), Ok(x)) => opt_string_view(v) == x,
            (Err(e), Err(x)) => e == x,
            _ => false,
        },
{
    match w {
        Wire::Present(x) => Ok(Some(x.clone())),
        Wire::Null => if p.nullable {
            Ok(None)
        } else if p.default.is_some() {
            Ok(clone_default(p))
        } else {
            Err(DefaultingError::RequiredValue)
        },
        Wire::Missing => if p.default.is_some() {
            Ok(clone_default(p))
        } else if p.nullable {
            Ok(None)
        } else {
            Err(DefaultingError::RequiredValue)
        },
    }
}

/// Writing a value and reading it back gives, in each of the six
/// categories, the value that the policy documents.
pub proof fn law_round_trip(p: FieldPolicy, v: Option<Seq<char>>)
    requires
        policy_valid(p),
        value_valid(p, v),
    ensures
        deserialized(p, serialized(p, v)) == Ok::<Option<Seq<char>>, DefaultingError>(
            round_tripped(p, v),
        ),
{
}

/// The defaulting policy of a field of the model.
pub open spec fn policy_view_of(f: FieldDescriptor) -> (bool, Option<Seq<char>>, bool) {
    (is_nullable(f.ty), opt_string_view(f.default), f.skip_if_none)
}

pub open spec fn policy_tuple(p: FieldPolicy) -> (bool, Option<Seq<char>>, bool) {
    (p.nullable, default_view(p), p.skip_if_none)
}

/// The defaulting policy of a field: nullable iff the field is optional.
pub fn field_policy(f: &FieldDescriptor) -> (p: FieldPolicy)
    ensures
        policy_tuple(p) == policy_view_of(*f),
        policy_valid(p) == defaulting_valid(*f),
{
    FieldPolicy {
        nullable: is_optional(&f.ty),
        default: match &f.default {
            Some(d) => Some(d.clone()),
            None => None,
        },
        skip_if_none: f.skip_if_none,
    }
}

/// A field is required in the schema exactly when a reader cannot fill it
/// from a payload that leaves it out.
pub proof fn law_required_iff_missing_fails(f: FieldDescriptor, p: FieldPolicy)
    requires
        policy_tuple(p) == policy_view_of(f),
    ensures
        is_required(f) <==> deserialized(p, WireView::Missing) is Err,
{
}

} // verus!
