use gitversion_build::schema::{field, Kind, FIELD_COUNT};

#[test]
fn table_has_a_row_for_each_fact() {
    assert_eq!(FIELD_COUNT, 33);
    for i in 0..FIELD_COUNT {
        assert!(field(i).is_some());
    }
    assert!(field(FIELD_COUNT).is_none());
    assert!(field(usize::MAX).is_none());
}

#[test]
fn table_names_each_fact_once() {
    for i in 0..FIELD_COUNT {
        for j in 0..i {
            let a = field(i).expect("a row");
            let b = field(j).expect("a row");
            assert_ne!(a.key, b.key);
            assert_ne!(a.name, b.name);
        }
    }
}

#[test]
fn table_rows_by_place() {
    let major = field(0).expect("a row");
    assert_eq!(major.key, "Major");
    assert_eq!(major.name, "major");
    assert_eq!(major.kind, Kind::Required);
    assert!(!major.deprecated);
    let number = field(7).expect("a row");
    assert_eq!(number.key, "PreReleaseNumber");
    assert_eq!(number.name, "pre_release_number");
    assert_eq!(number.kind, Kind::Optional);
    let weighted = field(8).expect("a row");
    assert_eq!(weighted.key, "WeightedPreReleaseNumber");
    assert_eq!(weighted.kind, Kind::Defaulted);
    let file_version = field(17).expect("a row");
    assert_eq!(file_version.key, "AssemblySemFileVer");
    assert_eq!(file_version.name, "assembly_sem_file_version");
    assert_eq!(file_version.kind, Kind::Text);
    assert!(file_version.deprecated);
    let date = field(32).expect("a row");
    assert_eq!(date.key, "CommitDate");
    assert_eq!(date.name, "commit_date");
    assert_eq!(date.kind, Kind::Text);
}

#[test]
fn table_kinds_by_count() {
    let mut required = 0;
    let mut defaulted = 0;
    let mut optional = 0;
    let mut text = 0;
    let mut deprecated = 0;
    for i in 0..FIELD_COUNT {
        let row = field(i).expect("a row");
        match row.kind {
            Kind::Required => required += 1,
            Kind::Defaulted => defaulted += 1,
            Kind::Optional => optional += 1,
            Kind::Text => text += 1,
        }
        if row.deprecated {
            deprecated += 1;
        }
    }
    assert_eq!((required, defaulted, optional, text), (3, 3, 2, 25));
    assert_eq!(deprecated, 8);
}

#[test]
fn table_names_are_lower_snake_case() {
    for i in 0..FIELD_COUNT {
        let row = field(i).expect("a row");
        assert!(row.name.chars().all(|c| c.is_ascii_lowercase() || c.is_ascii_digit() || c == '_'));
        assert!(row.key.chars().all(|c| c.is_ascii_alphanumeric()));
        assert!(row.doc.starts_with("    /// "));
        assert!(row.doc.ends_with('\n'));
    }
}
