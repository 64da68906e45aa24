use gitversion_build::gitversion::FactRef;
use gitversion_build::schema::FIELD_COUNT;
use gitversion_build::GitVersion;

fn sample() -> GitVersion {
    let mut version = GitVersion::default();
    version.major = 1;
    version.minor = 2;
    version.patch = 3;
    version.pre_release_number = Some(0);
    version.semver = "1.2.3-rc.0".to_string();
    version.full_semver = "1.2.3-rc.0+5".to_string();
    version.informational_version = "1.2.3-rc.0+5.Branch.main.Sha.abc1234".to_string();
    version.commit_date = "2020-01-02".to_string();
    version.uncommitted_changes = 4;
    version
}

#[test]
fn display_is_the_semantic_version() {
    assert_eq!(sample().display(), "1.2.3-rc.0");
    assert_eq!(GitVersion::default().display(), "");
}

#[test]
fn debug_is_the_informational_version() {
    assert_eq!(sample().debug(), "1.2.3-rc.0+5.Branch.main.Sha.abc1234");
    assert_eq!(GitVersion::default().debug(), "");
}

#[test]
fn get_hands_out_each_fact_by_its_place() {
    let version = sample();
    assert!(matches!(version.get(0), Some(FactRef::Number(1))));
    assert!(matches!(version.get(1), Some(FactRef::Number(2))));
    assert!(matches!(version.get(2), Some(FactRef::Number(3))));
    assert!(matches!(version.get(7), Some(FactRef::Optional(Some(0)))));
    assert!(matches!(version.get(9), Some(FactRef::Optional(None))));
    assert!(matches!(version.get(13), Some(FactRef::Text("1.2.3-rc.0"))));
    assert!(matches!(version.get(19), Some(FactRef::Text("1.2.3-rc.0+5"))));
    assert!(matches!(version.get(31), Some(FactRef::Number(4))));
    assert!(matches!(version.get(32), Some(FactRef::Text("2020-01-02"))));
    assert!(version.get(FIELD_COUNT).is_none());
}

#[test]
fn get_of_the_default_descriptor() {
    let version = GitVersion::default();
    for i in 0..FIELD_COUNT {
        match version.get(i).expect("a fact") {
            FactRef::Number(n) => assert_eq!(n, 0),
            FactRef::Optional(n) => assert_eq!(n, None),
            FactRef::Text(text) => assert_eq!(text, ""),
        }
    }
}
