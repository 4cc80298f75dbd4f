//! Datatype-generic programming: a small vocabulary of structural shapes and
//! the engine that derives, for a record type, its representation in that
//! vocabulary together with the conversions to and from it.

pub mod constraints;
pub mod conversion;
pub mod derivation;
pub mod descriptor;
pub mod fields;
pub mod repr;
pub mod semantics;
pub mod text;
pub mod tree;

pub use repr::{Generic, Meta, Prod, Singleton, Sum, Unit};
