//! The core of the `Duplicate` derive macro, with its behaviour stated and proved.
//!
//! A type definition is parsed and read into the generator's own terms (`syntax`),
//! the shape of its fields is classified (`shape`), and from the name and the shape
//! three things are derived (`synth`): a size expression that sums the heap
//! footprint of the fields, a companion type named after the type, and a marker
//! association for the type. `emit` writes them as tokens, and `generate` puts the
//! steps together, from the tokens of a definition to the tokens that the derive adds
//! to a program.
//!
//! The contracts speak of token streams through the model in `token`.

pub use crate::generate::duplicate_type_derive;

pub mod emit;
pub mod generate;
pub mod ident;
pub mod shape;
pub mod syntax;
pub mod synth;
pub mod token;
