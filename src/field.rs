//! The field model: what a resource's data shape looks like, field by field.
use vstd::prelude::*;
use crate::cel::CelRule;

verus! {

/// A primitive value kind of the source language.
#[derive(Clone, Copy, Debug, PartialEq, Eq, Structural)]
pub enum ScalarKind {
    String,
    Boolean,
    Int32,
    Int64,
    UInt32,
    UInt64,
    Double,
}

/// The type of a field.
#[derive(Debug)]
pub enum FieldType {
    Scalar(ScalarKind),
    Optional(Box<FieldType>),
    Sequence(Box<FieldType>),
    /// A map from strings to values of the boxed type.
    Mapping(Box<FieldType>),
    /// A struct, by its index among the model's structs.
    Struct(usize),
}

/// The merge strategy declared for a field.
#[derive(Debug)]
pub enum MergeStrategy {
    Atomic,
    ValueSet,
    KeyedMap(Vec<String>),
    Merge,
}

/// One field of a struct.
#[derive(Debug)]
pub struct FieldDescriptor {
    /// The serialized name.
    pub name: String,
    pub ty: FieldType,
    /// The default value as JSON text, where the field has one.
    pub default: Option<String>,
    /// An absent value is left out of the payload instead of written as `null`.
    pub skip_if_none: bool,
    pub merge: MergeStrategy,
    pub rules: Vec<CelRule>,
}

/// A struct: its name, its fields in declaration order, and its own rules.
#[derive(Debug)]
pub struct StructDescriptor {
    pub name: String,
    pub fields: Vec<FieldDescriptor>,
    pub rules: Vec<CelRule>,
}

/// The structs that make up a resource, and which of them is its root.
#[derive(Debug)]
pub struct SchemaModel {
    pub structs: Vec<StructDescriptor>,
    pub root: usize,
}

pub open spec fn is_nullable(t: FieldType) -> bool {
    t is Optional
}

/// A field is required iff it is not optional and has no default.
pub open spec fn is_required(f: FieldDescriptor) -> bool {
    !is_nullable(f.ty) && f.default is None
}

/// The six reachable defaulting categories: a non-nullable field cannot be
/// skipped when absent.
pub open spec fn defaulting_valid(f: FieldDescriptor) -> bool {
    is_nullable(f.ty) || !f.skip_if_none
}

/// The type under any `Optional` wrappers.
pub open spec fn base_type(t: FieldType) -> FieldType
    decreases t,
{
    match t {
        FieldType::Optional(b) => base_type(*b),
        _ => t,
    }
}

pub open spec fn merge_allowed(t: FieldType, m: MergeStrategy) -> bool {
    match m {
        MergeStrategy::Atomic => true,
        MergeStrategy::ValueSet => base_type(t) is Sequence,
        MergeStrategy::KeyedMap(_) => match base_type(t) {
            FieldType::Sequence(item) => base_type(*item) is Struct,
            _ => false,
        },
        MergeStrategy::Merge => base_type(t) is Mapping || base_type(t) is Struct,
    }
}

/// Whether a field of type `t` is nullable.
pub fn is_optional(t: &FieldType) -> (b: bool)
    ensures
        b == is_nullable(*t),
{
    match t {
        FieldType::Optional(_) => true,
        _ => false,
    }
}

/// The type under any `Optional` wrappers.
pub fn strip_optional(t: &FieldType) -> (r: &FieldType)
    ensures
        *r == base_type(*t),
    decreases t,
{
    match t {
        FieldType::Optional(b) => strip_optional(b),
        _ => t,
    }
}

/// Whether strategy `m` may be declared on a field of type `t`.
pub fn check_merge(t: &FieldType, m: &MergeStrategy) -> (b: bool)
    ensures
        b == merge_allowed(*t, *m),
{
    let base = strip_optional(t);
    match m {
        MergeStrategy::Atomic => true,
        MergeStrategy::ValueSet => match base {
            FieldType::Sequence(_) => true,
            _ => false,
        },
        MergeStrategy::KeyedMap(_) => match base {
            FieldType::Sequence(item) => match strip_optional(item) {
                FieldType::Struct(_) => true,
                _ => false,
            },
            _ => false,
        },
        MergeStrategy::Merge => match base {
            FieldType::Mapping(_) => true,
            FieldType::Struct(_) => true,
            _ => false,
        },
    }
}

} // verus!
