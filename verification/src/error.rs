//! Configuration errors, and the field they are attributed to.
use vstd::prelude::*;
use vstd::string::StringExecFns;

verus! {

/// The attribute that was set beside `flatten`.
#[derive(Clone, Copy, Debug, PartialEq, Eq)]
pub enum Conflict {
    Type,
    Rename,
    Inline,
}

/// How a type fails to have the shape `Option<T>`.
#[derive(Clone, Copy, Debug, PartialEq, Eq)]
pub enum OptionalMisuse {
    /// The type is not a bare, single-segment path named `Option`.
    NotOption,
    /// `Option` does not carry exactly one generic argument.
    ArgumentCount,
}

/// A structural error in the configuration of one field.
#[derive(Clone, Copy, Debug, PartialEq, Eq)]
pub enum ConfigError {
    /// `flatten` was combined with `type`, `rename` or `inline`.
    IncompatibleAttributes(Conflict),
    /// `optional` was set on a field whose type is not `Option<T>`.
    InvalidOptionalUsage(OptionalMisuse),
    /// The one generic argument of `Option` is not a type.
    MalformedGenericArgument,
}

/// A configuration error together with the identifier of the field it was found on.
#[derive(Clone, Debug, PartialEq, Eq)]
pub struct FieldError {
    pub field: String,
    pub error: ConfigError,
}

impl ConfigError {
    /// The diagnostic text of each error.
    pub open spec fn message_text(self) -> Seq<char> {
        match self {
            ConfigError::IncompatibleAttributes(Conflict::Type) =>
                "`type` is not compatible with `flatten`"@,
            ConfigError::IncompatibleAttributes(Conflict::Rename) =>
                "`rename` is not compatible with `flatten`"@,
            ConfigError::IncompatibleAttributes(Conflict::Inline) =>
                "`inline` is not compatible with `flatten`"@,
            ConfigError::InvalidOptionalUsage(OptionalMisuse::NotOption) =>
                "`optional` can only be used on an Option<T> type"@,
            ConfigError::InvalidOptionalUsage(OptionalMisuse::ArgumentCount) =>
                "`Option` type must have a single generic argument"@,
            ConfigError::MalformedGenericArgument => "`Option` argument must be a type"@,
        }
    }

    /// The diagnostic to show for this error.
    pub fn message(&self) -> (text: String)
        ensures
            text@ == self.message_text(),
    {
        match self {
            ConfigError::IncompatibleAttributes(Conflict::Type) => String::from_str(
                "`type` is not compatible with `flatten`",
            ),
            ConfigError::IncompatibleAttributes(Conflict::Rename) => String::from_str(
                "`rename` is not compatible with `flatten`",
            ),
            ConfigError::IncompatibleAttributes(Conflict::Inline) => String::from_str(
                "`inline` is not compatible with `flatten`",
            ),
            ConfigError::InvalidOptionalUsage(OptionalMisuse::NotOption) => String::from_str(
                "`optional` can only be used on an Option<T> type",
            ),
            ConfigError::InvalidOptionalUsage(OptionalMisuse::ArgumentCount) => String::from_str(
                "`Option` type must have a single generic argument",
            ),
            ConfigError::MalformedGenericArgument => String::from_str(
                "`Option` argument must be a type",
            ),
        }
    }
}

} // verus!
