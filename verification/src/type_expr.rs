//! Type expressions, and the recognition of the shape `Option<T>`.
use vstd::prelude::*;
use vstd::string::StringExecFns;
use crate::error::{ConfigError, OptionalMisuse};

verus! {

/// One argument between the angle brackets of a path segment.
#[derive(Debug, PartialEq, Eq)]
pub enum GenericArg {
    /// A type argument.
    Type(TypeExpr),
    /// Anything else (a lifetime, a constant, a binding), kept as its source text.
    Other(String),
}

/// The arguments that follow the name of a path segment.
#[derive(Debug, PartialEq, Eq)]
pub enum PathArguments {
    /// No arguments, as in `String`.
    Absent,
    /// Arguments in angle brackets, as in `Vec<T>`.
    AngleBracketed(Vec<GenericArg>),
    /// Arguments in round brackets, as in `Fn(A) -> B`, kept as their source text.
    Parenthesized(String),
}

/// One segment of a path: a name and its arguments.
#[derive(Debug, PartialEq, Eq)]
pub struct PathSegment {
    pub ident: String,
    pub arguments: PathArguments,
}

/// A type expression: a tree of named paths with generic arguments.
#[derive(Debug, PartialEq, Eq)]
pub enum TypeExpr {
    /// A named path such as `Option<T>`, `std::vec::Vec<u8>` or `<T as Tr>::Out`.
    Path {
        /// Whether the path starts from a self-type qualifier, as in `<T as Tr>::Out`.
        qself: bool,
        /// Whether the path starts with `::`.
        leading_colon: bool,
        segments: Vec<PathSegment>,
    },
    /// Any other type (a tuple, a reference, an array), kept as its source text.
    Other(String),
}

/// Whether `ty` is a bare path of the one segment `Option`, whatever its arguments.
pub open spec fn is_option_path(ty: TypeExpr) -> bool {
    &&& ty is Path
    &&& !ty->qself
    &&& !ty->leading_colon
    &&& ty->segments@.len() == 1
    &&& ty->segments@[0].ident@ == "Option"@
}

/// The `T` of a type written `Option<T>`, or the way in which `ty` is not of that shape.
///
/// The test is on the spelling alone: any bare path named `Option` with one
/// type argument passes, whatever type that name resolves to.
pub open spec fn option_argument(ty: TypeExpr) -> Result<TypeExpr, ConfigError> {
    if !is_option_path(ty) {
        Err(ConfigError::InvalidOptionalUsage(OptionalMisuse::NotOption))
    } else {
        match ty->segments@[0].arguments {
            PathArguments::AngleBracketed(args) => if args@.len() == 1 {
                match args@[0] {
                    GenericArg::Type(inner) => Ok(inner),
                    GenericArg::Other(_) => Err(ConfigError::MalformedGenericArgument),
                }
            } else {
                Err(ConfigError::InvalidOptionalUsage(OptionalMisuse::ArgumentCount))
            },
            _ => Err(ConfigError::InvalidOptionalUsage(OptionalMisuse::ArgumentCount)),
        }
    }
}

/// Takes the payload type out of a type written `Option<T>`.
pub fn extract_option_argument(ty: &TypeExpr) -> (r: Result<&TypeExpr, ConfigError>)
    ensures
        match r {
            Ok(inner) => option_argument(*ty) == Ok::<TypeExpr, ConfigError>(*inner),
            Err(e) => option_argument(*ty) == Err::<TypeExpr, ConfigError>(e),
        },
{
    match ty {
        TypeExpr::Path { qself, leading_colon, segments } => {
            if *qself || *leading_colon || segments.len() != 1 {
                return Err(ConfigError::InvalidOptionalUsage(OptionalMisuse::NotOption));
            }
            let segment = &segments[0];
            let option = String::from_str("Option");
            if segment.ident != option {
                return Err(ConfigError::InvalidOptionalUsage(OptionalMisuse::NotOption));
            }
            match &segment.arguments {
                PathArguments::AngleBracketed(args) => {
                    if args.len() != 1 {
                        return Err(ConfigError::InvalidOptionalUsage(OptionalMisuse::ArgumentCount));
                    }
                    match &args[0] {
                        GenericArg::Type(inner) => Ok(inner),
                        GenericArg::Other(_) => Err(ConfigError::MalformedGenericArgument),
                    }
                },
                _ => Err(ConfigError::InvalidOptionalUsage(OptionalMisuse::ArgumentCount)),
            }
        },
        TypeExpr::Other(_) => Err(ConfigError::InvalidOptionalUsage(OptionalMisuse::NotOption)),
    }
}

} // verus!
