//! What synthesis produces: a template of a record's declaration.
//!
//! A template holds no finished text for the types of the fields. It says, for
//! each line, which type's text goes where; the text itself is supplied when
//! the template is rendered (see [`crate::render`]).
use vstd::prelude::*;
use crate::attr::GenericParam;
use crate::type_expr::TypeExpr;

verus! {

/// The text of a field's type.
#[derive(Debug, PartialEq, Eq)]
pub enum TypeText<'a> {
    /// The given text, as it stands.
    Verbatim(String),
    /// The inline body of the type, one level deeper than the line.
    Inline(&'a TypeExpr),
    /// The type's name in the target language, lowered with the given generic
    /// parameters in scope.
    Lowered { ty: &'a TypeExpr, generics: &'a Vec<GenericParam> },
}

/// One entry of a record's body.
#[derive(Debug, PartialEq, Eq)]
pub enum FieldTemplate<'a> {
    /// A line `name: type,` or `name?: type,`.
    Line { name: String, optional: bool, ty: TypeText<'a> },
    /// The field lines of the type, spliced in at the indentation of the body.
    Flattened(&'a TypeExpr),
}

/// One contribution to a record's list of dependencies.
#[derive(Clone, Copy, Debug, PartialEq, Eq)]
pub enum Dependency<'a> {
    /// All that the type's own declaration depends on.
    Of(&'a TypeExpr),
    /// What lowering the type, with the given generic parameters in scope, depends on.
    Lowered { ty: &'a TypeExpr, generics: &'a Vec<GenericParam> },
}

/// The template of one record's declaration.
#[derive(Debug, PartialEq, Eq)]
pub struct DerivedTS<'a> {
    /// The record's name.
    pub name: String,
    /// The clause of type parameters that follows the name: `<A, B>`, or nothing.
    pub generic_clause: String,
    /// The entries of the body, in the order of the fields.
    pub fields: Vec<FieldTemplate<'a>>,
    /// The contributions to the dependency list, in the order of the fields.
    pub dependencies: Vec<Dependency<'a>>,
}

} // verus!
