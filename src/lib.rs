//! Name-indexed access to the fields of a record.
//!
//! An owner lists its accessible fields and hands out a type-erased slot for
//! each; the proxies built on those slots read a field as a concrete type,
//! exactly or by a lossless numeric conversion, and write it with its exact
//! type only.
pub mod access;
pub mod declare;
mod elements;
pub mod field;
pub mod laws;
pub mod slot;
mod types;
pub mod value;

pub use access::{AnyFieldAccess, FieldAccess, Fields};
pub use declare::{accessible_fields, accessible_names, is_accessible, skip_field, FieldDecl};
pub use field::{Field, FieldMut};
pub use slot::{AnyMut, AnyRef, Element, FieldType};
pub use value::{numeric_as, AccessError, Kind, Value};
