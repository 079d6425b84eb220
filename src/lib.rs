//! Compile-time duck typing for structs with named fields.
//!
//! [`capability`] holds the traits that generic code is written against;
//! [`generate`] turns the shape of a struct into the Rust source of the
//! implementations of those traits.
pub mod capability;
pub mod text;
pub mod shape;
pub mod generate;
pub mod laws;

pub use capability::{
    ConstDuck, ConstDuckGeneric, ConstructFrom, Field, FieldList, FieldListCons, FieldListNil,
    NameCons, NameNil, WithField,
};
pub use generate::generate;
pub use shape::{FieldShape, GenError, StructShape};
