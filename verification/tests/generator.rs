use builder_gen::classify::FieldShape;
use builder_gen::classify::classify;
use builder_gen::emit::GeneratedUnit;
use builder_gen::emit::InitKind;
use builder_gen::emit::PullKind;
use builder_gen::emit::SetterBodyKind;
use builder_gen::emit::generate;
use builder_gen::model::AttrPair;
use builder_gen::model::AttrValue;
use builder_gen::model::Diagnostic;
use builder_gen::model::DiagnosticKind;
use builder_gen::model::FieldDescriptor;
use builder_gen::model::RecordBody;
use builder_gen::model::RecordDef;
use builder_gen::model::TypeExpr;

fn bare(name: &str) -> TypeExpr {
    TypeExpr::Bare { name: name.to_owned() }
}

fn single(name: &str, arg: TypeExpr) -> TypeExpr {
    TypeExpr::Single { name: name.to_owned(), arg: Box::new(arg) }
}

fn each(name: &str) -> Vec<AttrPair> {
    vec![AttrPair { key: "each".to_owned(), value: AttrValue::StrLit { value: name.to_owned() } }]
}

fn field(name: &str, ty: TypeExpr, attrs: Vec<AttrPair>) -> FieldDescriptor {
    FieldDescriptor { name: name.to_owned(), ty, attrs }
}

fn command_def() -> RecordDef {
    RecordDef {
        name: "Command".to_owned(),
        body: RecordBody::NamedFields {
            fields: vec![
                field("executable", bare("String"), vec![]),
                field(
                    "args",
                    single("Vec", bare("String")),
                    vec![
                        AttrPair {
                            key: "each".to_owned(),
                            value: AttrValue::StrLit { value: "arg".to_owned() },
                        },
                        AttrPair {
                            key: "smth".to_owned(),
                            value: AttrValue::StrLit { value: "smth".to_owned() },
                        },
                    ],
                ),
                field("env", single("Vec", bare("String")), each("env")),
                field("current_dir", single("Option", bare("String")), vec![]),
            ],
        },
    }
}

fn command_unit() -> GeneratedUnit {
    generate(&command_def()).unwrap()
}

#[test]
fn generates_command_builder_unit() {
    let unit = command_unit();
    assert_eq!(unit.record_name, "Command");
    assert_eq!(unit.builder_name, "CommandBuilder");
    assert_eq!(unit.plans.len(), 4);

    let exe = &unit.plans[0];
    assert_eq!(exe.storage.field_name, "executable");
    assert_eq!(exe.storage.storage_ty, single("Option", bare("String")));
    assert_eq!(exe.storage.init, InitKind::Absent);
    assert_eq!(exe.setter.method_name, "executable");
    assert_eq!(exe.setter.param_ty, bare("String"));
    assert_eq!(exe.setter.body, SetterBodyKind::AssignOptionalFromPlain);
    assert_eq!(exe.pull.kind, PullKind::UnwrapRequired);

    let args = &unit.plans[1];
    assert_eq!(args.storage.storage_ty, single("Vec", bare("String")));
    assert_eq!(args.storage.init, InitKind::EmptyCollection);
    assert_eq!(args.setter.method_name, "arg");
    assert_eq!(args.setter.param_ty, bare("String"));
    assert_eq!(args.setter.body, SetterBodyKind::PushElement);
    assert_eq!(args.pull.kind, PullKind::CloneCollection);

    let env = &unit.plans[2];
    assert_eq!(env.setter.method_name, "env");
    assert_eq!(env.setter.body, SetterBodyKind::PushElement);

    let dir = &unit.plans[3];
    assert_eq!(dir.storage.storage_ty, single("Option", bare("String")));
    assert_eq!(dir.setter.method_name, "current_dir");
    assert_eq!(dir.setter.param_ty, bare("String"));
    assert_eq!(dir.setter.body, SetterBodyKind::AssignOptional);
    assert_eq!(dir.pull.kind, PullKind::CloneOptional);
}

#[test]
fn collection_without_override_replaces_wholesale() {
    let def = RecordDef {
        name: "Tags".to_owned(),
        body: RecordBody::NamedFields {
            fields: vec![field("tags", single("Vec", bare("String")), vec![])],
        },
    };
    let unit = generate(&def).unwrap();
    let plan = &unit.plans[0];
    assert_eq!(plan.setter.method_name, "tags");
    assert_eq!(plan.setter.param_ty, single("Vec", bare("String")));
    assert_eq!(plan.setter.body, SetterBodyKind::AssignCollectionWhole);
    assert_eq!(plan.pull.kind, PullKind::CloneCollection);
}

#[test]
fn unrecognized_generic_is_plain_and_kept_whole() {
    let ty = single("Box", bare("u8"));
    assert_eq!(classify(&ty), FieldShape::Plain { ty: single("Box", bare("u8")) });

    let nested = single("Option", single("Option", bare("u8")));
    assert_eq!(classify(&nested), FieldShape::Optional { inner: single("Option", bare("u8")) });

    let opaque = TypeExpr::Opaque { text: "(u8, u8)".to_owned() };
    assert_eq!(classify(&opaque), FieldShape::Plain { ty: TypeExpr::Opaque {
        text: "(u8, u8)".to_owned(),
    } });
}

#[test]
fn override_on_plain_field_is_consumed_but_unused() {
    let def = RecordDef {
        name: "One".to_owned(),
        body: RecordBody::NamedFields {
            fields: vec![field("name", bare("String"), each("rename"))],
        },
    };
    let unit = generate(&def).unwrap();
    assert_eq!(unit.plans[0].setter.method_name, "name");
    assert_eq!(unit.plans[0].setter.body, SetterBodyKind::AssignOptionalFromPlain);
}

#[test]
fn unknown_directive_keys_are_ignored() {
    let def = RecordDef {
        name: "Tags".to_owned(),
        body: RecordBody::NamedFields {
            fields: vec![field(
                "tags",
                single("Vec", bare("String")),
                vec![AttrPair {
                    key: "smth".to_owned(),
                    value: AttrValue::StrLit { value: "smth".to_owned() },
                }],
            )],
        },
    };
    let unit = generate(&def).unwrap();
    assert_eq!(unit.plans[0].setter.method_name, "tags");
    assert_eq!(unit.plans[0].setter.body, SetterBodyKind::AssignCollectionWhole);
}

#[test]
fn each_value_not_a_string_literal_is_fatal() {
    let def = RecordDef {
        name: "Bad".to_owned(),
        body: RecordBody::NamedFields {
            fields: vec![field(
                "tags",
                single("Vec", bare("String")),
                vec![AttrPair { key: "each".to_owned(), value: AttrValue::OtherLit }],
            )],
        },
    };
    let err = generate(&def).unwrap_err();
    assert_eq!(err, Diagnostic {
        kind: DiagnosticKind::EachValueNotStringLiteral,
        subject: "tags".to_owned(),
    });
}

#[test]
fn each_value_not_a_literal_is_fatal() {
    let def = RecordDef {
        name: "Bad".to_owned(),
        body: RecordBody::NamedFields {
            fields: vec![field(
                "tags",
                single("Vec", bare("String")),
                vec![AttrPair { key: "each".to_owned(), value: AttrValue::NotLit }],
            )],
        },
    };
    let err = generate(&def).unwrap_err();
    assert_eq!(err.kind, DiagnosticKind::EachValueNotLiteral);
    assert_eq!(err.subject, "tags");
}

#[test]
fn first_faulty_field_wins() {
    let def = RecordDef {
        name: "Bad".to_owned(),
        body: RecordBody::NamedFields {
            fields: vec![
                field(
                    "a",
                    single("Vec", bare("String")),
                    vec![AttrPair { key: "each".to_owned(), value: AttrValue::NotLit }],
                ),
                field(
                    "b",
                    single("Vec", bare("String")),
                    vec![AttrPair { key: "each".to_owned(), value: AttrValue::OtherLit }],
                ),
            ],
        },
    };
    let err = generate(&def).unwrap_err();
    assert_eq!(err.kind, DiagnosticKind::EachValueNotLiteral);
    assert_eq!(err.subject, "a");
}

#[test]
fn tuple_and_variant_bodies_are_rejected() {
    let tuple = RecordDef { name: "Pair".to_owned(), body: RecordBody::TupleFields };
    let err = generate(&tuple).unwrap_err();
    assert_eq!(err.kind, DiagnosticKind::NotNamedFieldsRecord);
    assert_eq!(err.subject, "Pair");

    let sum = RecordDef { name: "Either".to_owned(), body: RecordBody::Variants };
    let err = generate(&sum).unwrap_err();
    assert_eq!(err.kind, DiagnosticKind::NotNamedFieldsRecord);
    assert_eq!(err.subject, "Either");
}

#[test]
fn generation_is_deterministic() {
    let once = generate(&command_def()).unwrap();
    let twice = generate(&command_def()).unwrap();
    assert_eq!(once, twice);
}

#[test]
fn empty_record_generates_empty_builder() {
    let def = RecordDef {
        name: "Unit".to_owned(),
        body: RecordBody::NamedFields { fields: vec![] },
    };
    let unit = generate(&def).unwrap();
    assert_eq!(unit.builder_name, "UnitBuilder");
    assert_eq!(unit.plans.len(), 0);
}
