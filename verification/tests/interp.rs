use builder_gen::emit::GeneratedUnit;
use builder_gen::emit::generate;
use builder_gen::interp::ArgValue;
use builder_gen::interp::BuilderState;
use builder_gen::interp::FieldValue;
use builder_gen::model::AttrPair;
use builder_gen::model::AttrValue;
use builder_gen::model::FieldDescriptor;
use builder_gen::model::RecordBody;
use builder_gen::model::RecordDef;
use builder_gen::model::TypeExpr;

fn bare(name: &str) -> TypeExpr {
    TypeExpr::Bare { name: name.to_owned() }
}

fn single(name: &str, arg: TypeExpr) -> TypeExpr {
    TypeExpr::Single { name: name.to_owned(), arg: Box::new(arg) }
}

fn each(name: &str) -> Vec<AttrPair> {
    vec![AttrPair { key: "each".to_owned(), value: AttrValue::StrLit { value: name.to_owned() } }]
}

fn field(name: &str, ty: TypeExpr, attrs: Vec<AttrPair>) -> FieldDescriptor {
    FieldDescriptor { name: name.to_owned(), ty, attrs }
}

fn command_unit() -> GeneratedUnit {
    let def = RecordDef {
        name: "Command".to_owned(),
        body: RecordBody::NamedFields {
            fields: vec![
                field("executable", bare("String"), vec![]),
                field("args", single("Vec", bare("String")), each("arg")),
                field("env", single("Vec", bare("String")), each("env")),
                field("current_dir", single("Option", bare("String")), vec![]),
            ],
        },
    };
    generate(&def).unwrap()
}

fn one(value: &str) -> ArgValue {
    ArgValue::One { value: value.to_owned() }
}

fn whole(items: &[&str]) -> ArgValue {
    ArgValue::Whole { items: items.iter().map(|s| (*s).to_owned()).collect() }
}

#[test]
fn all_plain_fields_round_trip() {
    let def = RecordDef {
        name: "Point".to_owned(),
        body: RecordBody::NamedFields {
            fields: vec![field("x", bare("String"), vec![]), field("y", bare("String"), vec![])],
        },
    };
    let unit = generate(&def).unwrap();
    let mut state = BuilderState::new(&unit);
    state.set(&unit, 0, one("1"));
    state.set(&unit, 1, one("2"));
    let fields = state.build(&unit).unwrap();
    assert_eq!(fields, vec![
        FieldValue::Required { value: "1".to_owned() },
        FieldValue::Required { value: "2".to_owned() },
    ]);
}

#[test]
fn unset_optional_field_is_absent() {
    let unit = command_unit();
    let mut state = BuilderState::new(&unit);
    state.set(&unit, 0, one("cargo"));
    let fields = state.build(&unit).unwrap();
    assert_eq!(fields[3], FieldValue::Optional { value: None });
}

#[test]
fn each_override_accumulates_in_order() {
    let unit = command_unit();
    let mut state = BuilderState::new(&unit);
    state.set(&unit, 0, one("cargo"));
    state.set(&unit, 1, one("build"));
    state.set(&unit, 1, one("--release"));
    let fields = state.build(&unit).unwrap();
    assert_eq!(fields[1], FieldValue::Collection {
        items: vec!["build".to_owned(), "--release".to_owned()],
    });
}

#[test]
fn whole_setter_last_write_wins() {
    let def = RecordDef {
        name: "Tags".to_owned(),
        body: RecordBody::NamedFields {
            fields: vec![field("tags", single("Vec", bare("String")), vec![])],
        },
    };
    let unit = generate(&def).unwrap();
    let mut state = BuilderState::new(&unit);
    state.set(&unit, 0, whole(&["e1", "e2"]));
    state.set(&unit, 0, whole(&["e3"]));
    let fields = state.build(&unit).unwrap();
    assert_eq!(fields, vec![FieldValue::Collection { items: vec!["e3".to_owned()] }]);
}

#[test]
fn unset_required_field_fails_naming_it() {
    let unit = command_unit();
    let mut state = BuilderState::new(&unit);
    state.set(&unit, 1, one("build"));
    let err = state.build(&unit).unwrap_err();
    assert_eq!(err, "executable is required");
}

#[test]
fn command_scenario_builds_expected_record() {
    let unit = command_unit();
    let mut state = BuilderState::new(&unit);
    state.set(&unit, 0, one("cargo"));
    state.set(&unit, 1, one("build"));
    state.set(&unit, 1, one("--release"));
    let fields = state.build(&unit).unwrap();
    assert_eq!(fields, vec![
        FieldValue::Required { value: "cargo".to_owned() },
        FieldValue::Collection { items: vec!["build".to_owned(), "--release".to_owned()] },
        FieldValue::Collection { items: vec![] },
        FieldValue::Optional { value: None },
    ]);
}

#[test]
fn mismatched_argument_shape_changes_nothing() {
    let unit = command_unit();
    let mut state = BuilderState::new(&unit);
    state.set(&unit, 0, whole(&["not", "a", "value"]));
    let err = state.build(&unit).unwrap_err();
    assert_eq!(err, "executable is required");
}
