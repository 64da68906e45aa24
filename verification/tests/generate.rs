use gitversion_build::decode::DecodeError;
use gitversion_build::generate::{
    generate, needs_write, require_out_dir, same_content_as, ARTIFACT, EMPTY_OBJECT, OUT_DIR,
};
use gitversion_build::publish::{publish, Variable};
use gitversion_build::render::render;
use gitversion_build::schema::FIELD_COUNT;
use gitversion_build::source::{payload, ToolOutput};
use gitversion_build::{Error, GitVersion};

const SCENARIO: &str = "{\"Major\":1,\"Minor\":2,\"Patch\":3,\"SemVer\":\"1.2.3\",\"FullSemVer\":\"1.2.3\",\"InformationalVersion\":\"1.2.3+0.Branch.main.Sha.abc1234\"}";

#[test]
fn names_of_the_build_environment() {
    assert_eq!(OUT_DIR, "OUT_DIR");
    assert_eq!(ARTIFACT, "gitversion.rs");
    assert_eq!(EMPTY_OBJECT, "{}");
}

#[test]
fn require_out_dir_hands_the_directory_on() {
    assert!(matches!(require_out_dir(Some("target/out")), Ok("target/out")));
    assert!(matches!(require_out_dir(Some(7)), Ok(7)));
}

#[test]
fn require_out_dir_misses_the_variable() {
    assert!(matches!(require_out_dir::<String>(None), Err(Error::MissingEnvVar)));
}

#[test]
fn generate_without_a_payload_gives_the_default_descriptor() {
    let made = generate(None).expect("no error");
    assert_eq!(made.version, GitVersion::default());
    assert_eq!(made.variables.len(), FIELD_COUNT - 2);
    assert_eq!(made.variables, publish(&GitVersion::default()));
    assert_eq!(made.code, render(&GitVersion::default()));
    let of_empty_object = generate(Some("{}")).expect("no error");
    assert_eq!(of_empty_object.version, made.version);
    assert_eq!(of_empty_object.variables, made.variables);
    assert_eq!(of_empty_object.code, made.code);
}

#[test]
fn generate_after_a_tool_that_is_not_found() {
    let text = payload(None);
    assert_eq!(text, None);
    let made = generate(text.as_deref()).expect("no error");
    assert_eq!(made.version, GitVersion::default());
    let failed = ToolOutput { success: false, stdout: b"error".to_vec() };
    let made = generate(payload(Some(&failed)).as_deref()).expect("no error");
    assert_eq!(made.version, GitVersion::default());
}

#[test]
fn generate_scenario() {
    let made = generate(Some(SCENARIO)).expect("no error");
    assert_eq!(made.version.major, 1);
    assert_eq!(made.version.minor, 2);
    assert_eq!(made.version.patch, 3);
    assert_eq!(made.version.semver, "1.2.3");
    assert_eq!(made.version.pre_release_number, None);
    assert_eq!(made.version.build_meta_data, None);
    let major = Variable { key: "GITVERSION_MAJOR".to_string(), value: "1".to_string() };
    let semver = Variable { key: "GITVERSION_SEMVER".to_string(), value: "1.2.3".to_string() };
    assert!(made.variables.contains(&major));
    assert!(made.variables.contains(&semver));
    assert_eq!(made.variables, publish(&made.version));
    assert_eq!(made.code, render(&made.version));
    assert!(made.code.contains("            semver: \"1.2.3\",\n"));
    assert!(made.code.contains(
        "            informational_version: \"1.2.3+0.Branch.main.Sha.abc1234\",\n"
    ));
    assert_eq!(made.version.display(), "1.2.3");
    assert_eq!(made.version.debug(), "1.2.3+0.Branch.main.Sha.abc1234");
}

#[test]
fn generate_of_a_malformed_payload_gives_nothing() {
    assert!(matches!(generate(Some("not json")), Err(Error::Decode(DecodeError::Syntax(_)))));
    assert!(matches!(generate(Some("")), Err(Error::Decode(DecodeError::Syntax(_)))));
}

#[test]
fn generate_hands_the_decoder_s_error_on() {
    assert!(matches!(generate(Some("[]")), Err(Error::Decode(DecodeError::NotAnObject))));
    assert!(matches!(
        generate(Some("{\"Major\":1}")),
        Err(Error::Decode(DecodeError::Missing("Minor")))
    ));
    assert!(matches!(
        generate(Some("{\"Major\":1,\"Minor\":2,\"Patch\":3,\"Sha\":4}")),
        Err(Error::Decode(DecodeError::Invalid("Sha")))
    ));
}

#[test]
fn second_run_writes_nothing() {
    let first = generate(Some(SCENARIO)).expect("no error");
    assert!(needs_write(None, &first.code));
    let file = first.code.clone();
    let second = generate(Some(SCENARIO)).expect("no error");
    assert_eq!(second.code, file);
    assert!(!needs_write(Some(&file), &second.code));
}

#[test]
fn needs_write_where_the_file_differs() {
    let made = generate(Some(SCENARIO)).expect("no error");
    let other = generate(None).expect("no error");
    assert!(needs_write(Some(&other.code), &made.code));
    assert!(needs_write(Some(""), &made.code));
    assert!(needs_write(None, ""));
    assert!(!needs_write(Some(""), ""));
    let mut longer = made.code.clone();
    longer.push('\n');
    assert!(needs_write(Some(&longer), &made.code));
}

#[test]
fn same_content_as_compares_every_byte() {
    assert!(same_content_as("", ""));
    assert!(same_content_as("abc", "abc"));
    assert!(!same_content_as("abc", "abd"));
    assert!(!same_content_as("abc", "abcd"));
    assert!(!same_content_as("abc", "ab"));
    assert!(!same_content_as("Abc", "abc"));
    assert!(same_content_as("caf\u{e9}", "caf\u{e9}"));
    assert!(!same_content_as("caf\u{e9}", "cafe\u{301}"));
    assert!(!same_content_as("a\n", "a\r\n"));
}

#[test]
fn error_tells_what_went_wrong() {
    let io = Error::Io(std::io::Error::new(std::io::ErrorKind::NotFound, "gone"));
    assert!(matches!(io, Error::Io(_)));
    assert!(format!("{:?}", io).contains("gone"));
    assert_eq!(format!("{:?}", Error::MissingEnvVar), "MissingEnvVar");
    let fault = generate(Some("{\"Major\":1}")).expect_err("a fault");
    assert_eq!(format!("{:?}", fault), "Decode(Missing(\"Minor\"))");
}
