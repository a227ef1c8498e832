use ts_record::attr::{resolve, FieldAttr, FieldDefinition, GenericParam, RawAttr};
use ts_record::error::{ConfigError, Conflict, FieldError, OptionalMisuse};
use ts_record::field::format_field;
use ts_record::record::{generic_clause, named, RecordDefinition};
use ts_record::template::{Dependency, FieldTemplate, TypeText};
use ts_record::type_expr::{
    extract_option_argument, GenericArg, PathArguments, PathSegment, TypeExpr,
};

type Policy = fn(&String) -> String;

fn no_policy() -> Option<Policy> {
    None
}

fn upper(name: &String) -> String {
    name.to_uppercase()
}

fn plain(name: &str) -> TypeExpr {
    TypeExpr::Path {
        qself: false,
        leading_colon: false,
        segments: vec![PathSegment { ident: name.to_string(), arguments: PathArguments::Absent }],
    }
}

fn generic(name: &str, args: Vec<GenericArg>) -> TypeExpr {
    TypeExpr::Path {
        qself: false,
        leading_colon: false,
        segments: vec![PathSegment {
            ident: name.to_string(),
            arguments: PathArguments::AngleBracketed(args),
        }],
    }
}

fn option_of(inner: TypeExpr) -> TypeExpr {
    generic("Option", vec![GenericArg::Type(inner)])
}

fn field(identifier: &str, type_expr: TypeExpr, attrs: FieldAttr) -> FieldDefinition {
    FieldDefinition { identifier: identifier.to_string(), type_expr, attrs }
}

fn texts(items: &[&str]) -> Vec<String> {
    items.iter().map(|s| s.to_string()).collect()
}

#[test]
fn empty_record_renders_an_empty_line_between_braces() {
    let fields = vec![];
    let generics = vec![];
    let derived = named("Unit", &no_policy(), &fields, &generics).unwrap();
    assert!(derived.fields.is_empty());
    assert!(derived.dependencies.is_empty());
    assert_eq!(derived.inline(0, &vec![]), Some("{\n\n}".to_string()));
    assert_eq!(derived.inline(1, &vec![]), Some("{\n\n    }".to_string()));
    assert_eq!(derived.inline(3, &vec![]), Some("{\n\n            }".to_string()));
    assert_eq!(derived.inline_flattened(2, &vec![]), Some(String::new()));
    assert_eq!(derived.decl(&vec![]), Some("interface Unit {\n\n}".to_string()));
}

#[test]
fn point_declaration() {
    let fields = vec![
        field("x", plain("f64"), FieldAttr::default()),
        field("y", plain("f64"), FieldAttr::default()),
    ];
    let generics = vec![];
    let derived = named("Point", &no_policy(), &fields, &generics).unwrap();
    assert_eq!(derived.name, "Point");
    assert_eq!(derived.generic_clause, "");
    assert_eq!(
        derived.decl(&texts(&["number", "number"])),
        Some("interface Point {\n    x: number,\n    y: number,\n}".to_string())
    );
    // Lowering a primitive contributes nothing.
    assert_eq!(derived.dependency_list(&vec![vec![], vec![]]), Some(vec![]));
}

#[test]
fn generic_wrapper_declaration() {
    let fields = vec![field("value", plain("T"), FieldAttr::default())];
    let generics = vec![GenericParam::Type("T".to_string())];
    let derived = named("Wrapper", &no_policy(), &fields, &generics).unwrap();
    assert_eq!(derived.generic_clause, "<T>");
    assert_eq!(
        derived.decl(&texts(&["T"])),
        Some("interface Wrapper<T> {\n    value: T,\n}".to_string())
    );
}

#[test]
fn lowered_type_carries_the_generics_in_scope() {
    let t = plain("T");
    let fields = vec![field("value", plain("T"), FieldAttr::default())];
    let generics = vec![GenericParam::Type("T".to_string()), GenericParam::Const("N".to_string())];
    let mut lines = vec![];
    let mut dependencies = vec![];
    let result = format_field(&mut lines, &mut dependencies, &fields[0], &no_policy(), &generics);
    assert_eq!(result, Ok(()));
    assert_eq!(
        lines,
        vec![FieldTemplate::Line {
            name: "value".to_string(),
            optional: false,
            ty: TypeText::Lowered { ty: &t, generics: &generics },
        }]
    );
    assert_eq!(dependencies, vec![Dependency::Lowered { ty: &t, generics: &generics }]);
}

#[test]
fn generic_clause_lists_type_parameters_only() {
    assert_eq!(generic_clause(&vec![]), "");
    assert_eq!(
        generic_clause(&vec![
            GenericParam::Lifetime("a".to_string()),
            GenericParam::Type("K".to_string()),
            GenericParam::Const("N".to_string()),
            GenericParam::Type("V".to_string()),
        ]),
        "<K, V>"
    );
    assert_eq!(
        generic_clause(&vec![
            GenericParam::Lifetime("a".to_string()),
            GenericParam::Const("N".to_string()),
        ]),
        ""
    );
}

#[test]
fn fields_keep_their_order() {
    let forward = vec![
        field("first", plain("A"), FieldAttr::default()),
        field("second", plain("B"), FieldAttr::default()),
    ];
    let backward = vec![
        field("second", plain("B"), FieldAttr::default()),
        field("first", plain("A"), FieldAttr::default()),
    ];
    let generics = vec![];
    let a = named("R", &no_policy(), &forward, &generics).unwrap();
    let b = named("R", &no_policy(), &backward, &generics).unwrap();
    assert_eq!(
        a.inline(0, &texts(&["A", "B"])),
        Some("{\n    first: A,\n    second: B,\n}".to_string())
    );
    assert_eq!(
        b.inline(0, &texts(&["B", "A"])),
        Some("{\n    second: B,\n    first: A,\n}".to_string())
    );
    assert_eq!(a.fields[0], b.fields[1]);
    assert_eq!(a.fields[1], b.fields[0]);
    assert_eq!(a.dependencies[0], b.dependencies[1]);
    assert_eq!(a.dependencies[1], b.dependencies[0]);
}

#[test]
fn skipped_field_leaves_no_trace() {
    let with = vec![
        field("x", plain("A"), FieldAttr::default()),
        field("hidden", plain("Secret"), FieldAttr { skip: true, ..FieldAttr::default() }),
        field("y", plain("B"), FieldAttr::default()),
    ];
    let without = vec![
        field("x", plain("A"), FieldAttr::default()),
        field("y", plain("B"), FieldAttr::default()),
    ];
    let generics = vec![];
    let a = named("R", &no_policy(), &with, &generics).unwrap();
    let b = named("R", &no_policy(), &without, &generics).unwrap();
    assert_eq!(a, b);
    assert_eq!(a.fields.len(), 2);
    assert_eq!(a.dependencies.len(), 2);
}

#[test]
fn skip_wins_over_a_misconfiguration() {
    let attrs = FieldAttr {
        skip: true,
        optional: true,
        flatten: true,
        rename: Some("x".to_string()),
        ..FieldAttr::default()
    };
    let fields = vec![field("broken", plain("String"), attrs)];
    let generics = vec![];
    let derived = named("R", &no_policy(), &fields, &generics).unwrap();
    assert!(derived.fields.is_empty());
    assert!(derived.dependencies.is_empty());
}

#[test]
fn optional_field_is_marked_and_unwrapped() {
    let user = plain("User");
    let fields = vec![field(
        "value",
        option_of(plain("User")),
        FieldAttr { optional: true, ..FieldAttr::default() },
    )];
    let generics = vec![];
    let derived = named("Holder", &no_policy(), &fields, &generics).unwrap();
    assert_eq!(
        derived.fields,
        vec![FieldTemplate::Line {
            name: "value".to_string(),
            optional: true,
            ty: TypeText::Lowered { ty: &user, generics: &generics },
        }]
    );
    assert_eq!(
        derived.dependencies,
        vec![Dependency::Lowered { ty: &user, generics: &generics }]
    );
    assert_eq!(derived.inline_flattened(0, &texts(&["User"])), Some("    value?: User,".to_string()));
    assert_eq!(
        derived.dependency_list(&vec![vec!["User".to_string()]]),
        Some(vec!["User".to_string()])
    );
}

#[test]
fn option_without_optional_is_kept_whole() {
    let ty = option_of(plain("User"));
    let fields = vec![field("value", option_of(plain("User")), FieldAttr::default())];
    let generics = vec![];
    let derived = named("Holder", &no_policy(), &fields, &generics).unwrap();
    assert_eq!(
        derived.fields,
        vec![FieldTemplate::Line {
            name: "value".to_string(),
            optional: false,
            ty: TypeText::Lowered { ty: &ty, generics: &generics },
        }]
    );
}

#[test]
fn optional_on_a_plain_type_is_refused() {
    let fields = vec![
        field("fine", plain("u8"), FieldAttr::default()),
        field("name", plain("String"), FieldAttr { optional: true, ..FieldAttr::default() }),
    ];
    let generics = vec![];
    let result = named("R", &no_policy(), &fields, &generics);
    assert_eq!(
        result,
        Err(FieldError {
            field: "name".to_string(),
            error: ConfigError::InvalidOptionalUsage(OptionalMisuse::NotOption),
        })
    );
}

#[test]
fn flatten_with_rename_is_refused() {
    let attrs =
        FieldAttr { flatten: true, rename: Some("x".to_string()), ..FieldAttr::default() };
    let fields = vec![field("inner", plain("A"), attrs)];
    let generics = vec![];
    let result = named("R", &no_policy(), &fields, &generics);
    assert_eq!(
        result,
        Err(FieldError {
            field: "inner".to_string(),
            error: ConfigError::IncompatibleAttributes(Conflict::Rename),
        })
    );
}

#[test]
fn flatten_conflicts_are_reported_by_attribute() {
    let with_type = FieldAttr {
        flatten: true,
        type_override: Some("string".to_string()),
        rename: Some("x".to_string()),
        inline: true,
        ..FieldAttr::default()
    };
    assert_eq!(
        with_type.check_flatten(),
        Err(ConfigError::IncompatibleAttributes(Conflict::Type))
    );
    let with_inline = FieldAttr { flatten: true, inline: true, ..FieldAttr::default() };
    assert_eq!(
        with_inline.check_flatten(),
        Err(ConfigError::IncompatibleAttributes(Conflict::Inline))
    );
    let alone = FieldAttr { flatten: true, ..FieldAttr::default() };
    assert_eq!(alone.check_flatten(), Ok(()));
    let no_flatten = FieldAttr {
        type_override: Some("string".to_string()),
        rename: Some("x".to_string()),
        inline: true,
        ..FieldAttr::default()
    };
    assert_eq!(no_flatten.check_flatten(), Ok(()));
}

#[test]
fn misused_optional_is_reported_before_a_flatten_conflict() {
    let attrs = FieldAttr { optional: true, flatten: true, inline: true, ..FieldAttr::default() };
    let fields = vec![field("f", plain("String"), attrs)];
    let generics = vec![];
    let result = named("R", &no_policy(), &fields, &generics);
    assert_eq!(
        result.unwrap_err().error,
        ConfigError::InvalidOptionalUsage(OptionalMisuse::NotOption)
    );
}

#[test]
fn failed_field_changes_nothing() {
    let kept = plain("Kept");
    let mut lines = vec![FieldTemplate::Flattened(&kept)];
    let mut dependencies = vec![Dependency::Of(&kept)];
    let bad = field(
        "bad",
        plain("String"),
        FieldAttr { optional: true, ..FieldAttr::default() },
    );
    let generics = vec![];
    let result = format_field(&mut lines, &mut dependencies, &bad, &no_policy(), &generics);
    assert!(result.is_err());
    assert_eq!(lines, vec![FieldTemplate::Flattened(&kept)]);
    assert_eq!(dependencies, vec![Dependency::Of(&kept)]);
}

#[test]
fn option_shapes() {
    let user = plain("User");
    assert_eq!(extract_option_argument(&option_of(plain("User"))), Ok(&user));
    assert_eq!(
        extract_option_argument(&plain("String")),
        Err(ConfigError::InvalidOptionalUsage(OptionalMisuse::NotOption))
    );
    assert_eq!(
        extract_option_argument(&generic("Vec", vec![GenericArg::Type(plain("User"))])),
        Err(ConfigError::InvalidOptionalUsage(OptionalMisuse::NotOption))
    );
    assert_eq!(
        extract_option_argument(&TypeExpr::Other("(u8, u8)".to_string())),
        Err(ConfigError::InvalidOptionalUsage(OptionalMisuse::NotOption))
    );
    assert_eq!(
        extract_option_argument(&plain("Option")),
        Err(ConfigError::InvalidOptionalUsage(OptionalMisuse::ArgumentCount))
    );
    assert_eq!(
        extract_option_argument(&generic("Option", vec![])),
        Err(ConfigError::InvalidOptionalUsage(OptionalMisuse::ArgumentCount))
    );
    assert_eq!(
        extract_option_argument(&generic(
            "Option",
            vec![GenericArg::Type(plain("A")), GenericArg::Type(plain("B"))]
        )),
        Err(ConfigError::InvalidOptionalUsage(OptionalMisuse::ArgumentCount))
    );
    assert_eq!(
        extract_option_argument(&TypeExpr::Path {
            qself: false,
            leading_colon: false,
            segments: vec![PathSegment {
                ident: "Option".to_string(),
                arguments: PathArguments::Parenthesized("(u8)".to_string()),
            }],
        }),
        Err(ConfigError::InvalidOptionalUsage(OptionalMisuse::ArgumentCount))
    );
    assert_eq!(
        extract_option_argument(&generic("Option", vec![GenericArg::Other("'a".to_string())])),
        Err(ConfigError::MalformedGenericArgument)
    );
}

#[test]
fn qualified_option_is_not_recognised() {
    let argument = || PathArguments::AngleBracketed(vec![GenericArg::Type(plain("User"))]);
    let segment = |name: &str, arguments| PathSegment { ident: name.to_string(), arguments };
    let long = TypeExpr::Path {
        qself: false,
        leading_colon: false,
        segments: vec![
            segment("std", PathArguments::Absent),
            segment("option", PathArguments::Absent),
            segment("Option", argument()),
        ],
    };
    let rooted = TypeExpr::Path {
        qself: false,
        leading_colon: true,
        segments: vec![segment("Option", argument())],
    };
    let projected = TypeExpr::Path {
        qself: true,
        leading_colon: false,
        segments: vec![segment("Option", argument())],
    };
    let no_segments = TypeExpr::Path { qself: false, leading_colon: false, segments: vec![] };
    for ty in [long, rooted, projected, no_segments] {
        assert_eq!(
            extract_option_argument(&ty),
            Err(ConfigError::InvalidOptionalUsage(OptionalMisuse::NotOption))
        );
    }
}

#[test]
fn malformed_option_argument_is_refused() {
    let fields = vec![field(
        "n",
        generic("Option", vec![GenericArg::Other("3".to_string())]),
        FieldAttr { optional: true, ..FieldAttr::default() },
    )];
    let generics = vec![];
    let result = named("R", &no_policy(), &fields, &generics);
    assert_eq!(
        result,
        Err(FieldError { field: "n".to_string(), error: ConfigError::MalformedGenericArgument })
    );
}

#[test]
fn first_error_is_the_one_reported() {
    let fields = vec![
        field("a", plain("A"), FieldAttr { flatten: true, inline: true, ..FieldAttr::default() }),
        field("b", plain("B"), FieldAttr { optional: true, ..FieldAttr::default() }),
    ];
    let generics = vec![];
    let result = named("R", &no_policy(), &fields, &generics);
    assert_eq!(
        result,
        Err(FieldError {
            field: "a".to_string(),
            error: ConfigError::IncompatibleAttributes(Conflict::Inline),
        })
    );
}

#[test]
fn flattened_record_is_spliced_in() {
    let a_fields = vec![field("a", plain("i32"), FieldAttr::default())];
    let generics = vec![];
    let a = named("A", &no_policy(), &a_fields, &generics).unwrap();
    let a_lines = a.inline_flattened(0, &texts(&["number"])).unwrap();
    assert_eq!(a_lines, "    a: number,");

    let a_type = plain("A");
    let b_fields = vec![
        field("part", plain("A"), FieldAttr { flatten: true, ..FieldAttr::default() }),
        field("b", plain("String"), FieldAttr::default()),
    ];
    let b = named("B", &no_policy(), &b_fields, &generics).unwrap();
    assert_eq!(b.fields[0], FieldTemplate::Flattened(&a_type));
    assert_eq!(b.dependencies[0], Dependency::Of(&a_type));
    assert_eq!(
        b.decl(&vec![a_lines, "string".to_string()]),
        Some("interface B {\n    a: number,\n    b: string,\n}".to_string())
    );
    assert_eq!(
        b.dependency_list(&vec![vec!["A".to_string()], vec![]]),
        Some(vec!["A".to_string()])
    );
}

#[test]
fn optional_flattened_field_splices_the_payload() {
    let a_type = plain("A");
    let fields = vec![field(
        "part",
        option_of(plain("A")),
        FieldAttr { flatten: true, optional: true, ..FieldAttr::default() },
    )];
    let generics = vec![];
    let derived = named("B", &no_policy(), &fields, &generics).unwrap();
    assert_eq!(derived.fields, vec![FieldTemplate::Flattened(&a_type)]);
    assert_eq!(derived.dependencies, vec![Dependency::Of(&a_type)]);
}

#[test]
fn inlined_type_is_rendered_one_level_deeper() {
    let inner_fields = vec![field("a", plain("i32"), FieldAttr::default())];
    let generics = vec![];
    let inner = named("Inner", &no_policy(), &inner_fields, &generics).unwrap();
    let inner_body = inner.inline(1, &texts(&["number"])).unwrap();
    assert_eq!(inner_body, "{\n        a: number,\n    }");

    let inner_type = plain("Inner");
    let outer_fields =
        vec![field("inner", plain("Inner"), FieldAttr { inline: true, ..FieldAttr::default() })];
    let outer = named("Outer", &no_policy(), &outer_fields, &generics).unwrap();
    assert_eq!(
        outer.fields,
        vec![FieldTemplate::Line {
            name: "inner".to_string(),
            optional: false,
            ty: TypeText::Inline(&inner_type),
        }]
    );
    assert_eq!(outer.dependencies, vec![Dependency::Of(&inner_type)]);
    assert_eq!(
        outer.decl(&vec![inner_body]),
        Some("interface Outer {\n    inner: {\n        a: number,\n    },\n}".to_string())
    );
}

#[test]
fn type_override_is_used_verbatim_and_depends_on_nothing() {
    let attrs = FieldAttr {
        type_override: Some("Record<string, number>".to_string()),
        inline: true,
        ..FieldAttr::default()
    };
    let fields = vec![field("map", plain("HashMap"), attrs)];
    let generics = vec![];
    let derived = named("R", &no_policy(), &fields, &generics).unwrap();
    assert_eq!(
        derived.fields,
        vec![FieldTemplate::Line {
            name: "map".to_string(),
            optional: false,
            ty: TypeText::Verbatim("Record<string, number>".to_string()),
        }]
    );
    assert!(derived.dependencies.is_empty());
    assert_eq!(
        derived.inline_flattened(1, &texts(&["not read"])),
        Some("        map: Record<string, number>,".to_string())
    );
}

#[test]
fn names_follow_rename_then_policy_then_identifier() {
    let fields = vec![
        field("first_name", plain("String"), FieldAttr::default()),
        field(
            "last_name",
            plain("String"),
            FieldAttr { rename: Some("surname".to_string()), ..FieldAttr::default() },
        ),
    ];
    let generics = vec![];
    let policy: Option<Policy> = Some(upper);
    let shouted = named("P", &policy, &fields, &generics).unwrap();
    assert_eq!(
        shouted.inline(0, &texts(&["string", "string"])),
        Some("{\n    FIRST_NAME: string,\n    surname: string,\n}".to_string())
    );
    let quiet = named("P", &no_policy(), &fields, &generics).unwrap();
    assert_eq!(
        quiet.inline(0, &texts(&["string", "string"])),
        Some("{\n    first_name: string,\n    surname: string,\n}".to_string())
    );
}

#[test]
fn policy_may_be_a_closure() {
    let fields = vec![field("id", plain("u32"), FieldAttr::default())];
    let generics = vec![];
    let prefix = "my_".to_string();
    let policy = Some(|name: &String| format!("{}{}", prefix, name));
    let derived = named("P", &policy, &fields, &generics).unwrap();
    assert_eq!(derived.inline_flattened(0, &texts(&["number"])), Some("    my_id: number,".to_string()));
}

#[test]
fn rendering_wants_one_text_for_each_entry() {
    let fields = vec![
        field("x", plain("f64"), FieldAttr::default()),
        field("y", plain("f64"), FieldAttr::default()),
    ];
    let generics = vec![];
    let derived = named("Point", &no_policy(), &fields, &generics).unwrap();
    assert_eq!(derived.inline(0, &texts(&["number"])), None);
    assert_eq!(derived.inline_flattened(0, &texts(&["a", "b", "c"])), None);
    assert_eq!(derived.decl(&vec![]), None);
    assert_eq!(derived.dependency_list(&vec![vec![]]), None);
}

#[test]
fn dependency_list_keeps_order_and_duplicates() {
    let fields = vec![
        field("a", plain("A"), FieldAttr::default()),
        field("b", plain("B"), FieldAttr::default()),
        field("c", plain("A"), FieldAttr::default()),
    ];
    let generics = vec![];
    let derived = named("R", &no_policy(), &fields, &generics).unwrap();
    let lists = vec![
        vec!["A".to_string(), "X".to_string()],
        vec!["B".to_string()],
        vec!["A".to_string(), "X".to_string()],
    ];
    assert_eq!(
        derived.dependency_list(&lists),
        Some(texts(&["A", "X", "B", "A", "X"]))
    );
}

#[test]
fn raw_attributes_are_gathered() {
    assert_eq!(resolve(&vec![]), Ok(FieldAttr::default()));
    assert_eq!(
        resolve(&vec![
            RawAttr::Rename("first".to_string()),
            RawAttr::Optional,
            RawAttr::Rename("second".to_string()),
            RawAttr::Type("string".to_string()),
            RawAttr::Inline,
            RawAttr::Skip,
        ]),
        Ok(FieldAttr {
            type_override: Some("string".to_string()),
            rename: Some("second".to_string()),
            inline: true,
            skip: true,
            optional: true,
            flatten: false,
        })
    );
    assert_eq!(
        resolve(&vec![RawAttr::Flatten]),
        Ok(FieldAttr { flatten: true, ..FieldAttr::default() })
    );
}

#[test]
fn raw_flatten_conflicts_are_refused() {
    assert_eq!(
        resolve(&vec![RawAttr::Flatten, RawAttr::Rename("x".to_string())]),
        Err(ConfigError::IncompatibleAttributes(Conflict::Rename))
    );
    assert_eq!(
        resolve(&vec![RawAttr::Inline, RawAttr::Flatten]),
        Err(ConfigError::IncompatibleAttributes(Conflict::Inline))
    );
    assert_eq!(
        resolve(&vec![
            RawAttr::Rename("x".to_string()),
            RawAttr::Type("string".to_string()),
            RawAttr::Flatten,
            RawAttr::Skip,
        ]),
        Err(ConfigError::IncompatibleAttributes(Conflict::Type))
    );
}

#[test]
fn messages() {
    assert_eq!(
        ConfigError::IncompatibleAttributes(Conflict::Type).message(),
        "`type` is not compatible with `flatten`"
    );
    assert_eq!(
        ConfigError::IncompatibleAttributes(Conflict::Rename).message(),
        "`rename` is not compatible with `flatten`"
    );
    assert_eq!(
        ConfigError::IncompatibleAttributes(Conflict::Inline).message(),
        "`inline` is not compatible with `flatten`"
    );
    assert_eq!(
        ConfigError::InvalidOptionalUsage(OptionalMisuse::NotOption).message(),
        "`optional` can only be used on an Option<T> type"
    );
    assert_eq!(
        ConfigError::InvalidOptionalUsage(OptionalMisuse::ArgumentCount).message(),
        "`Option` type must have a single generic argument"
    );
    assert_eq!(
        ConfigError::MalformedGenericArgument.message(),
        "`Option` argument must be a type"
    );
}

#[test]
fn record_definition_synthesizes_its_parts() {
    let policy: Option<Policy> = Some(upper);
    let record = RecordDefinition {
        name: "Pair".to_string(),
        rename_policy: policy,
        fields: vec![
            field("left", plain("L"), FieldAttr::default()),
            field("right", plain("R"), FieldAttr::default()),
        ],
        generic_params: vec![
            GenericParam::Type("L".to_string()),
            GenericParam::Type("R".to_string()),
        ],
    };
    let derived = record.synthesize().unwrap();
    assert_eq!(
        derived,
        named("Pair", &record.rename_policy, &record.fields, &record.generic_params).unwrap()
    );
    assert_eq!(
        derived.decl(&texts(&["L", "R"])),
        Some("interface Pair<L, R> {\n    LEFT: L,\n    RIGHT: R,\n}".to_string())
    );
}

#[test]
fn record_definition_reports_its_first_bad_field() {
    let record = RecordDefinition {
        name: "Bad".to_string(),
        rename_policy: no_policy(),
        fields: vec![
            field("ok", plain("u8"), FieldAttr::default()),
            field(
                "clash",
                plain("A"),
                FieldAttr {
                    flatten: true,
                    type_override: Some("string".to_string()),
                    ..FieldAttr::default()
                },
            ),
        ],
        generic_params: vec![],
    };
    assert_eq!(
        record.synthesize(),
        Err(FieldError {
            field: "clash".to_string(),
            error: ConfigError::IncompatibleAttributes(Conflict::Type),
        })
    );
}
