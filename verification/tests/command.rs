use builder_gen::command::Command;

#[test]
fn builds_command_with_accumulated_args() {
    let command = Command::builder()
        .executable("cargo".to_owned())
        .arg("build".to_owned())
        .arg("--release".to_owned())
        .build()
        .unwrap();
    assert_eq!(command.executable, "cargo");
    assert_eq!(command.args, vec!["build".to_owned(), "--release".to_owned()]);
    assert_eq!(command.env, Vec::<String>::new());
    assert_eq!(command.current_dir, None);
}

#[test]
fn missing_executable_fails_naming_it() {
    let err = Command::builder()
        .arg("build".to_owned())
        .build()
        .unwrap_err();
    assert_eq!(err, "executable is required");
}

#[test]
fn optional_current_dir_can_be_set() {
    let command = Command::builder()
        .executable("ls".to_owned())
        .current_dir("/tmp".to_owned())
        .build()
        .unwrap();
    assert_eq!(command.current_dir, Some("/tmp".to_owned()));
}

#[test]
fn env_accumulates_in_call_order() {
    let command = Command::builder()
        .executable("env".to_owned())
        .env("A=1".to_owned())
        .env("B=2".to_owned())
        .build()
        .unwrap();
    assert_eq!(command.env, vec!["A=1".to_owned(), "B=2".to_owned()]);
}

#[test]
fn builder_survives_build_and_stays_reusable() {
    let mut builder = Command::builder();
    builder.executable("true".to_owned());
    let first = builder.build().unwrap();
    let second = builder.build().unwrap();
    assert_eq!(first.executable, "true");
    assert_eq!(second.executable, "true");
}
