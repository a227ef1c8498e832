//! Synthesis of a record's template from its fields.
use vstd::prelude::*;
use vstd::string::StringExecFns;
use crate::attr::{FieldDefinition, GenericParam};
use crate::error::FieldError;
use crate::field::{
    asks_policy, emitted_name, field_dependencies, field_error, field_lines, format_field,
};
use crate::template::{Dependency, DerivedTS, FieldTemplate};
use crate::text::{join, lemma_join_push};

verus! {

/// The names of the type parameters among `params`, in order.
pub open spec fn type_parameters(params: Seq<GenericParam>) -> Seq<Seq<char>>
    decreases params.len(),
{
    if params.len() == 0 {
        Seq::empty()
    } else {
        let before = type_parameters(params.drop_last());
        match params.last() {
            GenericParam::Type(name) => before.push(name@),
            _ => before,
        }
    }
}

/// The clause that follows a record's name: its type parameters between angle
/// brackets, separated by a comma and a space; nothing where it has none.
pub open spec fn generic_clause_text(params: Seq<GenericParam>) -> Seq<char> {
    let names = type_parameters(params);
    if names.len() == 0 {
        Seq::empty()
    } else {
        "<"@ + join(names, ", "@) + ">"@
    }
}

/// The entries of a body: those of each field in turn, `names[i]` being the
/// name that field `i` is emitted under.
pub open spec fn record_lines<'a>(
    fields: Seq<FieldDefinition>,
    names: Seq<String>,
    generics: &'a Vec<GenericParam>,
) -> Seq<FieldTemplate<'a>>
    decreases fields.len(),
{
    if fields.len() == 0 {
        Seq::empty()
    } else {
        record_lines(fields.drop_last(), names.drop_last(), generics) + field_lines(
            fields.last(),
            names.last(),
            generics,
        )
    }
}

/// The dependency list of a record: the contributions of each field in turn.
pub open spec fn record_dependencies<'a>(
    fields: Seq<FieldDefinition>,
    generics: &'a Vec<GenericParam>,
) -> Seq<Dependency<'a>>
    decreases fields.len(),
{
    if fields.len() == 0 {
        Seq::empty()
    } else {
        record_dependencies(fields.drop_last(), generics) + field_dependencies(
            fields.last(),
            generics,
        )
    }
}

/// Whether `names` holds, for each field, a name that it may be emitted under.
pub open spec fn names_fit<F: Fn(&String) -> String>(
    fields: Seq<FieldDefinition>,
    rename_all: Option<F>,
    names: Seq<String>,
) -> bool {
    &&& names.len() == fields.len()
    &&& forall|i: int|
        0 <= i < fields.len() ==> emitted_name(fields[i], rename_all, #[trigger] names[i])
}

/// A record: its name, the policy for the names of its fields where it has
/// one, its fields in the order of their declaration, and its generic
/// parameters.
pub struct RecordDefinition<F> {
    pub name: String,
    pub rename_policy: Option<F>,
    pub fields: Vec<FieldDefinition>,
    pub generic_params: Vec<GenericParam>,
}

/// Renders the clause of type parameters that follows a record's name.
pub fn generic_clause(generics: &Vec<GenericParam>) -> (clause: String)
    ensures
        clause@ == generic_clause_text(generics@),
{
    let mut joined = String::new();
    let mut any = false;
    let mut i: usize = 0;
    while i < generics.len()
        invariant
            i <= generics.len(),
            joined@ == join(type_parameters(generics@.take(i as int)), ", "@),
            any == (type_parameters(generics@.take(i as int)).len() > 0),
        decreases generics.len() - i,
    {
        proof {
            assert(generics@.take(i + 1).drop_last() =~= generics@.take(i as int));
            lemma_join_push(
                type_parameters(generics@.take(i as int)),
                ", "@,
                generics@[i as int]->Type_0@,
            );
        }
        match &generics[i] {
            GenericParam::Type(name) => {
                if any {
                    joined.append(", ");
                }
                joined.append(name.as_str());
                any = true;
            },
            _ => {},
        }
        i += 1;
    }
    proof {
        assert(generics@.take(i as int) =~= generics@);
    }
    if any {
        let mut clause = String::from_str("<");
        clause.append(joined.as_str());
        clause.append(">");
        clause
    } else {
        String::new()
    }
}

/// Synthesizes the template of the record `name` from its fields, in their order.
///
/// It fails on the first field whose configuration is in error, with that
/// field's identifier and error; no template is produced then.
pub fn named<'a, F: Fn(&String) -> String>(
    name: &str,
    rename_all: &Option<F>,
    fields: &'a Vec<FieldDefinition>,
    generics: &'a Vec<GenericParam>,
) -> (r: Result<DerivedTS<'a>, FieldError>)
    requires
        rename_all matches Some(policy) ==> forall|i: int|
            0 <= i < fields@.len() && asks_policy(#[trigger] fields@[i]) ==> policy.requires(
                (&fields@[i].identifier,),
            ),
    ensures
        r is Ok <==> forall|i: int| 0 <= i < fields@.len() ==> field_error(#[trigger] fields@[i]) is None,
        r matches Err(found) ==> exists|i: int|
            {
                &&& 0 <= i < fields@.len()
                &&& field_error(#[trigger] fields@[i]) == Some(found.error)
                &&& found.field@ == fields@[i].identifier@
                &&& forall|j: int| 0 <= j < i ==> field_error(#[trigger] fields@[j]) is None
            },
        r matches Ok(derived) ==> {
            &&& derived.name@ == name@
            &&& derived.generic_clause@ == generic_clause_text(generics@)
            &&& derived.dependencies@ == record_dependencies(fields@, generics)
            &&& exists|names: Seq<String>|
                {
                    &&& names_fit(fields@, *rename_all, names)
                    &&& derived.fields@ == #[trigger] record_lines(fields@, names, generics)
                }
        },
{
    let mut formatted_fields: Vec<FieldTemplate<'a>> = Vec::new();
    let mut dependencies: Vec<Dependency<'a>> = Vec::new();
    let ghost mut names: Seq<String> = Seq::empty();
    let mut i: usize = 0;
    while i < fields.len()
        invariant
            i <= fields.len(),
            rename_all matches Some(policy) ==> forall|k: int|
                0 <= k < fields@.len() && asks_policy(#[trigger] fields@[k]) ==> policy.requires(
                    (&fields@[k].identifier,),
                ),
            forall|j: int| 0 <= j < i ==> field_error(#[trigger] fields@[j]) is None,
            names_fit(fields@.take(i as int), *rename_all, names),
            formatted_fields@ == record_lines(fields@.take(i as int), names, generics),
            dependencies@ == record_dependencies(fields@.take(i as int), generics),
        decreases fields.len() - i,
    {
        let ghost before = formatted_fields@;
        match format_field(
            &mut formatted_fields,
            &mut dependencies,
            &fields[i],
            rename_all,
            generics,
        ) {
            Ok(()) => {},
            Err(found) => {
                return Err(found);
            },
        }
        proof {
            let name = choose|name: String|
                {
                    &&& emitted_name(fields@[i as int], *rename_all, name)
                    &&& formatted_fields@ == before + #[trigger] field_lines(
                        fields@[i as int],
                        name,
                        generics,
                    )
                };
            assert(fields@.take(i + 1).drop_last() =~= fields@.take(i as int));
            assert(names.push(name).drop_last() =~= names);
            names = names.push(name);
        }
        i += 1;
    }
    proof {
        assert(fields@.take(i as int) =~= fields@);
    }
    Ok(
        DerivedTS {
            name: String::from_str(name),
            generic_clause: generic_clause(generics),
            fields: formatted_fields,
            dependencies,
        },
    )
}

impl<F: Fn(&String) -> String> RecordDefinition<F> {
    /// Synthesizes the record's template: [`named`] on the record's parts.
    pub fn synthesize<'a>(&'a self) -> (r: Result<DerivedTS<'a>, FieldError>)
        requires
            self.rename_policy matches Some(policy) ==> forall|i: int|
                0 <= i < self.fields@.len() && asks_policy(#[trigger] self.fields@[i])
                    ==> policy.requires((&self.fields@[i].identifier,)),
        ensures
            r is Ok <==> forall|i: int|
                0 <= i < self.fields@.len() ==> field_error(#[trigger] self.fields@[i]) is None,
            r matches Err(found) ==> exists|i: int|
                {
                    &&& 0 <= i < self.fields@.len()
                    &&& field_error(#[trigger] self.fields@[i]) == Some(found.error)
                    &&& found.field@ == self.fields@[i].identifier@
                    &&& forall|j: int| 0 <= j < i ==> field_error(#[trigger] self.fields@[j]) is None
                },
            r matches Ok(derived) ==> {
                &&& derived.name@ == self.name@
                &&& derived.generic_clause@ == generic_clause_text(self.generic_params@)
                &&& derived.dependencies@ == record_dependencies(
                    self.fields@,
                    &self.generic_params,
                )
                &&& exists|names: Seq<String>|
                    {
                        &&& names_fit(self.fields@, self.rename_policy, names)
                        &&& derived.fields@ == #[trigger] record_lines(
                            self.fields@,
                            names,
                            &self.generic_params,
                        )
                    }
            },
    {
        named(self.name.as_str(), &self.rename_policy, &self.fields, &self.generic_params)
    }
}

} // verus!
