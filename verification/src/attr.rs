//! The attributes of a field, and the rule on what `flatten` may stand beside.
use vstd::prelude::*;
use crate::error::{ConfigError, Conflict};
use crate::type_expr::TypeExpr;

verus! {

/// The parsed attributes of one field. What was not written is `None` or `false`.
#[derive(Clone, Debug, PartialEq, Eq)]
pub struct FieldAttr {
    /// Text to emit as the field's type, in place of its own type.
    pub type_override: Option<String>,
    /// The name to emit for the field.
    pub rename: Option<String>,
    /// Emit the body of the field's type in place of a reference to it.
    pub inline: bool,
    /// Leave the field out.
    pub skip: bool,
    /// Mark the field as one that may be absent, and emit the payload of its `Option`.
    pub optional: bool,
    /// Splice the fields of the field's type into the enclosing body.
    pub flatten: bool,
}

impl FieldAttr {
    /// The attribute that may not stand beside `flatten`, if one is set.
    /// Where several are set, `type` is reported before `rename`, and `rename` before `inline`.
    pub open spec fn flatten_conflict(self) -> Option<Conflict> {
        if !self.flatten {
            None
        } else if self.type_override is Some {
            Some(Conflict::Type)
        } else if self.rename is Some {
            Some(Conflict::Rename)
        } else if self.inline {
            Some(Conflict::Inline)
        } else {
            None
        }
    }

    /// Checks that `flatten` is not combined with `type`, `rename` or `inline`.
    pub fn check_flatten(&self) -> (r: Result<(), ConfigError>)
        ensures
            match self.flatten_conflict() {
                Some(c) => r == Err::<(), ConfigError>(ConfigError::IncompatibleAttributes(c)),
                None => r is Ok,
            },
    {
        if !self.flatten {
            Ok(())
        } else if self.type_override.is_some() {
            Err(ConfigError::IncompatibleAttributes(Conflict::Type))
        } else if self.rename.is_some() {
            Err(ConfigError::IncompatibleAttributes(Conflict::Rename))
        } else if self.inline {
            Err(ConfigError::IncompatibleAttributes(Conflict::Inline))
        } else {
            Ok(())
        }
    }
}

/// One attribute of a field as it was written: a key, and a value where the key takes one.
#[derive(Clone, Debug, PartialEq, Eq)]
pub enum RawAttr {
    Type(String),
    Rename(String),
    Inline,
    Skip,
    Optional,
    Flatten,
}

/// The attributes of a field on which nothing was written.
pub open spec fn no_attributes() -> FieldAttr {
    FieldAttr {
        type_override: None,
        rename: None,
        inline: false,
        skip: false,
        optional: false,
        flatten: false,
    }
}

/// `attrs` with one more attribute written: a flag is set, a value replaces an earlier one.
pub open spec fn with_attribute(attrs: FieldAttr, raw: RawAttr) -> FieldAttr {
    match raw {
        RawAttr::Type(text) => FieldAttr { type_override: Some(text), ..attrs },
        RawAttr::Rename(name) => FieldAttr { rename: Some(name), ..attrs },
        RawAttr::Inline => FieldAttr { inline: true, ..attrs },
        RawAttr::Skip => FieldAttr { skip: true, ..attrs },
        RawAttr::Optional => FieldAttr { optional: true, ..attrs },
        RawAttr::Flatten => FieldAttr { flatten: true, ..attrs },
    }
}

/// The attributes that a list of raw attributes amounts to.
pub open spec fn gathered(raw: Seq<RawAttr>) -> FieldAttr
    decreases raw.len(),
{
    if raw.len() == 0 {
        no_attributes()
    } else {
        with_attribute(gathered(raw.drop_last()), raw.last())
    }
}

impl Default for FieldAttr {
    fn default() -> (attrs: Self)
        ensures
            attrs == no_attributes(),
    {
        FieldAttr {
            type_override: None,
            rename: None,
            inline: false,
            skip: false,
            optional: false,
            flatten: false,
        }
    }
}

/// Resolves the raw attributes of a field. It fails where `flatten` stands
/// beside `type`, `rename` or `inline`, and checks nothing else.
pub fn resolve(raw: &Vec<RawAttr>) -> (r: Result<FieldAttr, ConfigError>)
    ensures
        match gathered(raw@).flatten_conflict() {
            Some(c) => r == Err::<FieldAttr, ConfigError>(ConfigError::IncompatibleAttributes(c)),
            None => r == Ok::<FieldAttr, ConfigError>(gathered(raw@)),
        },
{
    let mut attrs = FieldAttr::default();
    let mut i: usize = 0;
    while i < raw.len()
        invariant
            i <= raw.len(),
            attrs == gathered(raw@.take(i as int)),
        decreases raw.len() - i,
    {
        proof {
            assert(raw@.take(i + 1).drop_last() =~= raw@.take(i as int));
        }
        match &raw[i] {
            RawAttr::Type(text) => {
                attrs.type_override = Some(text.clone());
            },
            RawAttr::Rename(name) => {
                attrs.rename = Some(name.clone());
            },
            RawAttr::Inline => {
                attrs.inline = true;
            },
            RawAttr::Skip => {
                attrs.skip = true;
            },
            RawAttr::Optional => {
                attrs.optional = true;
            },
            RawAttr::Flatten => {
                attrs.flatten = true;
            },
        }
        i += 1;
    }
    proof {
        assert(raw@.take(i as int) =~= raw@);
    }
    match attrs.check_flatten() {
        Ok(()) => Ok(attrs),
        Err(error) => Err(error),
    }
}

/// One field of a record: its identifier, its type and its attributes.
#[derive(Debug, PartialEq, Eq)]
pub struct FieldDefinition {
    pub identifier: String,
    pub type_expr: TypeExpr,
    pub attrs: FieldAttr,
}

/// One generic parameter of a record.
#[derive(Clone, Debug, PartialEq, Eq)]
pub enum GenericParam {
    /// A type parameter, by its name.
    Type(String),
    /// A lifetime parameter, by its name.
    Lifetime(String),
    /// A constant parameter, by its name.
    Const(String),
}

} // verus!
