//! Formatting of a single field.
use vstd::prelude::*;
use crate::attr::{FieldDefinition, GenericParam};
use crate::error::{ConfigError, FieldError};
use crate::template::{Dependency, FieldTemplate, TypeText};
use crate::type_expr::{extract_option_argument, option_argument, TypeExpr};

verus! {

/// The error that a field's configuration holds, if any.
///
/// A skipped field is never in error. Of the others, a misuse of `optional`
/// is reported before a conflict with `flatten`.
pub open spec fn field_error(field: FieldDefinition) -> Option<ConfigError> {
    if field.attrs.skip {
        None
    } else if field.attrs.optional && option_argument(field.type_expr) is Err {
        Some(option_argument(field.type_expr)->Err_0)
    } else {
        match field.attrs.flatten_conflict() {
            Some(c) => Some(ConfigError::IncompatibleAttributes(c)),
            None => None,
        }
    }
}

/// The type that a field is emitted with: the payload of its `Option` where the
/// field is `optional`, its own type otherwise.
pub open spec fn effective_type(field: FieldDefinition) -> TypeExpr {
    if field.attrs.optional && option_argument(field.type_expr) is Ok {
        option_argument(field.type_expr)->Ok_0
    } else {
        field.type_expr
    }
}

/// Whether a field gives a line of its own, with a name.
pub open spec fn has_line(field: FieldDefinition) -> bool {
    !field.attrs.skip && !field.attrs.flatten
}

/// Whether formatting the field calls on the record's policy for names: the
/// field is well configured, gives a line of its own and has no `rename`.
pub open spec fn asks_policy(field: FieldDefinition) -> bool {
    has_line(field) && field_error(field) is None && field.attrs.rename is None
}

/// Whether `name` is a name that the field may be emitted under: its `rename`
/// where it has one, else what the record's policy makes of its identifier,
/// else the identifier. It holds of every name where the field has no line of
/// its own.
pub open spec fn emitted_name<F: Fn(&String) -> String>(
    field: FieldDefinition,
    rename_all: Option<F>,
    name: String,
) -> bool {
    has_line(field) ==> match (field.attrs.rename, rename_all) {
        (Some(rn), _) => name == rn,
        (None, Some(policy)) => policy.ensures((&field.identifier,), name),
        (None, None) => name == field.identifier,
    }
}

/// The text of a field's type: the override, else the inline body of the
/// effective type, else a reference to it.
pub open spec fn type_text<'a>(
    field: FieldDefinition,
    generics: &'a Vec<GenericParam>,
) -> TypeText<'a> {
    match field.attrs.type_override {
        Some(text) => TypeText::Verbatim(text),
        None => if field.attrs.inline {
            TypeText::Inline(&effective_type(field))
        } else {
            TypeText::Lowered { ty: &effective_type(field), generics }
        },
    }
}

/// The entries that a well-configured field adds to the body, under a given name.
pub open spec fn field_lines<'a>(
    field: FieldDefinition,
    name: String,
    generics: &'a Vec<GenericParam>,
) -> Seq<FieldTemplate<'a>> {
    if field.attrs.skip {
        Seq::empty()
    } else if field.attrs.flatten {
        seq![FieldTemplate::Flattened(&effective_type(field))]
    } else {
        seq![
            FieldTemplate::Line {
                name,
                optional: field.attrs.optional,
                ty: type_text(field, generics),
            },
        ]
    }
}

/// The contributions of a well-configured field to the dependency list.
pub open spec fn field_dependencies<'a>(
    field: FieldDefinition,
    generics: &'a Vec<GenericParam>,
) -> Seq<Dependency<'a>> {
    if field.attrs.skip {
        Seq::empty()
    } else if field.attrs.flatten {
        seq![Dependency::Of(&effective_type(field))]
    } else if field.attrs.type_override is Some {
        Seq::empty()
    } else if field.attrs.inline {
        seq![Dependency::Of(&effective_type(field))]
    } else {
        seq![Dependency::Lowered { ty: &effective_type(field), generics }]
    }
}

/// Formats one field: appends its entry to `formatted_fields` and its
/// contribution to `dependencies`, or reports the error in its configuration
/// and leaves both as they were.
pub fn format_field<'a, F: Fn(&String) -> String>(
    formatted_fields: &mut Vec<FieldTemplate<'a>>,
    dependencies: &mut Vec<Dependency<'a>>,
    field: &'a FieldDefinition,
    rename_all: &Option<F>,
    generics: &'a Vec<GenericParam>,
) -> (r: Result<(), FieldError>)
    requires
        asks_policy(*field) ==> (rename_all matches Some(policy) ==> policy.requires(
            (&field.identifier,),
        )),
    ensures
        match field_error(*field) {
            Some(e) => {
                &&& r matches Err(found)
                &&& found.field@ == field.identifier@
                &&& found.error == e
                &&& final(formatted_fields)@ == old(formatted_fields)@
                &&& final(dependencies)@ == old(dependencies)@
            },
            None => {
                &&& r is Ok
                &&& exists|name: String|
                    {
                        &&& emitted_name(*field, *rename_all, name)
                        &&& final(formatted_fields)@ == old(formatted_fields)@ + #[trigger] field_lines(
                            *field,
                            name,
                            generics,
                        )
                    }
                &&& final(dependencies)@ == old(dependencies)@ + field_dependencies(
                    *field,
                    generics,
                )
            },
        },
{
    let attrs = &field.attrs;
    if attrs.skip {
        proof {
            assert(formatted_fields@ + field_lines(*field, field.identifier, generics)
                =~= formatted_fields@);
            assert(dependencies@ + field_dependencies(*field, generics) =~= dependencies@);
        }
        return Ok(());
    }
    let ty: &'a TypeExpr = if attrs.optional {
        match extract_option_argument(&field.type_expr) {
            Ok(inner) => inner,
            Err(error) => {
                return Err(FieldError { field: field.identifier.clone(), error });
            },
        }
    } else {
        &field.type_expr
    };
    match attrs.check_flatten() {
        Ok(()) => {},
        Err(error) => {
            return Err(FieldError { field: field.identifier.clone(), error });
        },
    }
    if attrs.flatten {
        formatted_fields.push(FieldTemplate::Flattened(ty));
        dependencies.push(Dependency::Of(ty));
        proof {
            assert(formatted_fields@ =~= old(formatted_fields)@ + field_lines(
                *field,
                field.identifier,
                generics,
            ));
            assert(dependencies@ =~= old(dependencies)@ + field_dependencies(*field, generics));
        }
        return Ok(());
    }
    let formatted_ty = match &attrs.type_override {
        Some(text) => TypeText::Verbatim(text.clone()),
        None => {
            if attrs.inline {
                dependencies.push(Dependency::Of(ty));
                TypeText::Inline(ty)
            } else {
                dependencies.push(Dependency::Lowered { ty, generics });
                TypeText::Lowered { ty, generics }
            }
        },
    };
    let name = match (&attrs.rename, rename_all) {
        (Some(rn), _) => rn.clone(),
        (None, Some(policy)) => policy(&field.identifier),
        (None, None) => field.identifier.clone(),
    };
    formatted_fields.push(
        FieldTemplate::Line { name, optional: attrs.optional, ty: formatted_ty },
    );
    proof {
        assert(formatted_fields@ =~= old(formatted_fields)@ + field_lines(*field, name, generics));
        assert(dependencies@ =~= old(dependencies)@ + field_dependencies(*field, generics));
    }
    Ok(())
}

} // verus!
