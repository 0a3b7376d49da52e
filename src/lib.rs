//! Schema and manifest generation for Kubernetes custom resource definitions.
//!
//! A resource is described by plain values (its identity, its fields, their
//! validation rules and merge strategies); the library turns that description
//! into a structural schema and a `CustomResourceDefinition`-shaped manifest.

pub mod apply;
pub mod attrs;
pub mod builder;
pub mod cel;
pub mod defaulting;
pub mod field;
pub mod manifest;
pub mod plural;
pub mod schema;
pub mod structural;
