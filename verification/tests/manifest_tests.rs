use cargo_wix::error::Error;
use cargo_wix::manifest::read_manifest;

const GOOD: &str = "[package]\nname = \"demo\"\nversion = \"2.1.0\"\ndescription = \"A demo package\"\nauthors = [\"First Author\", \"Second Author\"]\n";

#[test]
fn reads_all_required_fields() {
    let m = read_manifest(GOOD).unwrap();
    assert_eq!(m.name, "demo");
    assert_eq!(m.version, "2.1.0");
    assert_eq!(m.description, "A demo package");
    assert_eq!(m.author, "First Author");
}

#[test]
fn bin_name_defaults_to_package_name() {
    let m = read_manifest(GOOD).unwrap();
    assert_eq!(m.bin_name, "demo");
}

#[test]
fn bin_name_override_wins() {
    let text = "[package]\nname = \"demo\"\nversion = \"2.1.0\"\ndescription = \"A demo package\"\nauthors = [\"First Author\"]\n\n[bin]\nname = \"tool\"\n";
    let m = read_manifest(text).unwrap();
    assert_eq!(m.name, "demo");
    assert_eq!(m.bin_name, "tool");
}

#[test]
fn wrong_typed_bin_name_falls_back_to_package_name() {
    let text = "[package]\nname = \"demo\"\nversion = \"2.1.0\"\ndescription = \"A demo package\"\nauthors = [\"First Author\"]\n\n[bin]\nname = 5\n";
    let m = read_manifest(text).unwrap();
    assert_eq!(m.bin_name, "demo");
}

#[test]
fn non_string_first_author_fails_with_authors() {
    let text = "[package]\nname = \"demo\"\nversion = \"2.1.0\"\ndescription = \"A demo package\"\nauthors = [17, \"First Author\"]\n";
    match read_manifest(text) {
        Err(Error::Manifest(field)) => assert_eq!(field, "authors"),
        other => panic!("expected a manifest error, got {:?}", other),
    }
}

#[test]
fn missing_version_fails_with_version() {
    let text =
        "[package]\nname = \"demo\"\ndescription = \"A demo package\"\nauthors = [\"a\"]\n";
    match read_manifest(text) {
        Err(Error::Manifest(field)) => assert_eq!(field, "version"),
        other => panic!("expected a manifest error, got {:?}", other),
    }
}

#[test]
fn missing_name_fails_with_name() {
    let text =
        "[package]\nversion = \"2.1.0\"\ndescription = \"A demo package\"\nauthors = [\"a\"]\n";
    match read_manifest(text) {
        Err(Error::Manifest(field)) => assert_eq!(field, "name"),
        other => panic!("expected a manifest error, got {:?}", other),
    }
}

#[test]
fn missing_description_fails_with_description() {
    let text = "[package]\nname = \"demo\"\nversion = \"2.1.0\"\nauthors = [\"a\"]\n";
    match read_manifest(text) {
        Err(Error::Manifest(field)) => assert_eq!(field, "description"),
        other => panic!("expected a manifest error, got {:?}", other),
    }
}

#[test]
fn missing_authors_fails_with_authors() {
    let text = "[package]\nname = \"demo\"\nversion = \"2.1.0\"\ndescription = \"A demo package\"\n";
    match read_manifest(text) {
        Err(Error::Manifest(field)) => assert_eq!(field, "authors"),
        other => panic!("expected a manifest error, got {:?}", other),
    }
}

#[test]
fn empty_authors_fails_with_authors() {
    let text = "[package]\nname = \"demo\"\nversion = \"2.1.0\"\ndescription = \"A demo package\"\nauthors = []\n";
    match read_manifest(text) {
        Err(Error::Manifest(field)) => assert_eq!(field, "authors"),
        other => panic!("expected a manifest error, got {:?}", other),
    }
}

#[test]
fn wrong_typed_version_fails_with_version() {
    let text = "[package]\nname = \"demo\"\nversion = 21\ndescription = \"A demo package\"\nauthors = [\"a\"]\n";
    match read_manifest(text) {
        Err(Error::Manifest(field)) => assert_eq!(field, "version"),
        other => panic!("expected a manifest error, got {:?}", other),
    }
}

#[test]
fn missing_version_is_reported_before_missing_name() {
    let text = "[package]\ndescription = \"A demo package\"\nauthors = [\"a\"]\n";
    match read_manifest(text) {
        Err(Error::Manifest(field)) => assert_eq!(field, "version"),
        other => panic!("expected a manifest error, got {:?}", other),
    }
}

#[test]
fn malformed_document_fails_with_parse_failure() {
    let text = "this is not = = a manifest [";
    match read_manifest(text) {
        Err(Error::ParseFailure(msg)) => assert!(!msg.is_empty()),
        other => panic!("expected a parse failure, got {:?}", other),
    }
}
