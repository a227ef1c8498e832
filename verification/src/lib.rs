//! Synthesis of interface declarations for records with named fields.
//!
//! A record is described by its name, its generic parameters and its fields,
//! each with a type expression and a set of attributes. From that description
//! [`record::named`] builds a [`template::DerivedTS`]: a template that renders,
//! at any indentation, the record's inline body, its flattened body and its
//! full `interface` declaration, and that lists the types the declaration
//! depends on.
pub mod error;
pub mod type_expr;
pub mod attr;
pub mod template;
pub mod field;
pub mod record;
pub mod text;
pub mod render;
pub mod laws;
