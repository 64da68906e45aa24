use gitversion_build::render::{
    expressions, layout, number_literal, optional_literal, render, HEAD, MIDDLE, TAIL,
};
use gitversion_build::schema::{field, Kind, FIELD_COUNT};
use gitversion_build::GitVersion;

fn sample() -> GitVersion {
    let mut version = GitVersion::default();
    version.major = 1;
    version.minor = 2;
    version.patch = 3;
    version.pre_release_number = Some(0);
    version.semver = "1.2.3".to_string();
    version.informational_version = "1.2.3+0.Branch.main.Sha.abc1234".to_string();
    version.branch_name = "a\"b\\c".to_string();
    version
}

fn expected_source(values: &[String]) -> String {
    let mut text = String::new();
    text.push_str("#[allow(dead_code)]\n");
    text.push_str("pub struct GitVersion {\n");
    for i in 0..FIELD_COUNT {
        let row = field(i).expect("a row");
        text.push_str(row.doc);
        if row.deprecated {
            text.push_str("    #[deprecated]\n");
        }
        let kind = match row.kind {
            Kind::Required | Kind::Defaulted => "u32",
            Kind::Optional => "Option<u32>",
            Kind::Text => "&'static str",
        };
        text.push_str(&format!("    pub {}: {},\n", row.name, kind));
    }
    text.push_str("}\n\n");
    text.push_str("#[allow(dead_code)]\n");
    text.push_str("impl GitVersion {\n");
    text.push_str("    /// Builds a `GitVersion` instance.\n");
    text.push_str("    #[allow(deprecated)]\n");
    text.push_str("    pub const fn new() -> GitVersion {\n");
    text.push_str("        GitVersion {\n");
    for i in 0..FIELD_COUNT {
        let row = field(i).expect("a row");
        let value = if i < values.len() { values[i].as_str() } else { "" };
        text.push_str(&format!("            {}: {},\n", row.name, value));
    }
    text.push_str("        }\n    }\n}\n\n");
    text.push_str("#[allow(dead_code)]\n");
    text.push_str("impl Default for GitVersion {\n");
    text.push_str("    fn default() -> Self {\n");
    text.push_str("        GitVersion::new()\n");
    text.push_str("    }\n}\n\n");
    text.push_str("#[allow(dead_code)]\n");
    text.push_str("pub const GIT_VERSION: GitVersion = GitVersion::new();\n\n");
    text.push_str("impl std::fmt::Display for GitVersion {\n");
    text.push_str("    fn fmt(&self, f: &mut std::fmt::Formatter<'_>) -> std::fmt::Result {\n");
    text.push_str("        write!(f, \"{}\", self.semver)\n");
    text.push_str("    }\n}\n\n");
    text.push_str("impl std::fmt::Debug for GitVersion {\n");
    text.push_str("    fn fmt(&self, f: &mut std::fmt::Formatter<'_>) -> std::fmt::Result {\n");
    text.push_str("        write!(f, \"{}\", self.informational_version)\n");
    text.push_str("    }\n}\n");
    text
}

#[test]
fn number_literal_is_the_numeral_with_its_type() {
    assert_eq!(number_literal(0), "0u32");
    assert_eq!(number_literal(42), "42u32");
    assert_eq!(number_literal(4294967295), "4294967295u32");
}

#[test]
fn optional_literal_tells_absent_from_zero() {
    assert_eq!(optional_literal(None), "None");
    assert_eq!(optional_literal(Some(0)), "Some(0u32)");
    assert_eq!(optional_literal(Some(17)), "Some(17u32)");
}

#[test]
fn expressions_of_a_descriptor() {
    let written = expressions(&sample());
    assert_eq!(written.len(), FIELD_COUNT);
    assert_eq!(written[0], "1u32");
    assert_eq!(written[1], "2u32");
    assert_eq!(written[2], "3u32");
    assert_eq!(written[3], "\"\"");
    assert_eq!(written[7], "Some(0u32)");
    assert_eq!(written[8], "0u32");
    assert_eq!(written[9], "None");
    assert_eq!(written[13], "\"1.2.3\"");
    assert_eq!(written[18], "\"1.2.3+0.Branch.main.Sha.abc1234\"");
    assert_eq!(written[20], "\"a\\\"b\\\\c\"");
}

#[test]
fn expressions_escape_what_a_literal_cannot_hold() {
    let mut version = GitVersion::default();
    version.branch_name = "line\nbreak\ttab".to_string();
    version.sha = "it's".to_string();
    let written = expressions(&version);
    assert_eq!(written[20], "\"line\\nbreak\\ttab\"");
    assert_eq!(written[22], "\"it's\"");
}

#[test]
fn layout_puts_each_expression_in_its_place() {
    let written = expressions(&sample());
    assert_eq!(layout(&written), expected_source(&written));
}

#[test]
fn layout_of_any_texts() {
    let mut values = Vec::new();
    for i in 0..FIELD_COUNT {
        values.push(format!("value_{}", i));
    }
    let text = layout(&values);
    assert_eq!(text, expected_source(&values));
    assert!(text.contains("            major: value_0,\n"));
    assert!(text.contains("            commit_date: value_32,\n"));
}

#[test]
fn layout_leaves_a_missing_expression_empty() {
    let values = vec!["1u32".to_string()];
    let text = layout(&values);
    assert_eq!(text, expected_source(&values));
    assert!(text.contains("            major: 1u32,\n"));
    assert!(text.contains("            minor: ,\n"));
}

#[test]
fn render_is_the_layout_of_the_expressions() {
    let version = sample();
    let text = render(&version);
    assert_eq!(text, layout(&expressions(&version)));
    assert!(text.starts_with(HEAD));
    assert!(text.contains(MIDDLE));
    assert!(text.ends_with(TAIL));
}

#[test]
fn render_declares_and_fills_each_field() {
    let text = render(&sample());
    assert!(text.contains("    /// The major version. Should be incremented on breaking changes.\n    pub major: u32,\n"));
    assert!(text.contains("    /// The pre-release number.\n    pub pre_release_number: Option<u32>,\n"));
    assert!(text.contains("    #[deprecated]\n    pub legacy_semver: &'static str,\n"));
    assert!(text.contains("    pub semver: &'static str,\n"));
    assert!(!text.contains("    #[deprecated]\n    pub semver"));
    assert!(text.contains("            major: 1u32,\n"));
    assert!(text.contains("            pre_release_number: Some(0u32),\n"));
    assert!(text.contains("            build_meta_data: None,\n"));
    assert!(text.contains("            semver: \"1.2.3\",\n"));
    assert!(text.contains("            branch_name: \"a\\\"b\\\\c\",\n"));
    assert!(text.contains("pub const GIT_VERSION: GitVersion = GitVersion::new();\n"));
    assert!(text.contains("write!(f, \"{}\", self.semver)"));
    assert!(text.contains("write!(f, \"{}\", self.informational_version)"));
}

#[test]
fn render_of_one_descriptor_twice() {
    let version = sample();
    assert_eq!(render(&version), render(&version));
}
