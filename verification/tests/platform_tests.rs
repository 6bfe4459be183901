use cargo_wix::error::Error;
use cargo_wix::platform::Platform;
use cargo_wix::template::template;

#[test]
fn platform_for_64_bit_host() {
    let p = Platform::for_host(true);
    assert_eq!(p, Platform::X64);
    assert_eq!(p.arch(), "x86_64");
    assert_eq!(p.short_name(), "x64");
}

#[test]
fn platform_for_32_bit_host() {
    let p = Platform::for_host(false);
    assert_eq!(p, Platform::X86);
    assert_eq!(p.arch(), "i686");
    assert_eq!(p.short_name(), "x86");
}

#[test]
fn error_codes_are_the_fixed_ones() {
    assert_eq!(Error::Build("m".to_string()).code(), 1);
    assert_eq!(Error::Compile("m".to_string()).code(), 2);
    assert_eq!(Error::Generic("m".to_string()).code(), 3);
    assert_eq!(Error::Io("m".to_string()).code(), 4);
    assert_eq!(Error::Link("m".to_string()).code(), 5);
    assert_eq!(Error::Manifest("m".to_string()).code(), 6);
    assert_eq!(Error::Sign("m".to_string()).code(), 7);
    assert_eq!(Error::ParseFailure("m".to_string()).code(), 8);
}

#[test]
fn kind_names_match_the_taxonomy() {
    assert_eq!(Error::Build("m".to_string()).kind_name(), "Build");
    assert_eq!(Error::Manifest("m".to_string()).kind_name(), "Manifest");
    assert_eq!(Error::ParseFailure("m".to_string()).kind_name(), "ParseFailure");
}

#[test]
fn manifest_error_message_names_the_field() {
    assert_eq!(
        Error::Manifest("authors".to_string()).message(),
        "No 'authors' field found in the package's manifest (Cargo.toml)"
    );
}

#[test]
fn plain_error_message_is_the_carried_text() {
    assert_eq!(Error::Build("the build broke".to_string()).message(), "the build broke");
}

#[test]
fn template_is_nonempty_and_fixed() {
    let first = template();
    let second = template();
    assert!(!first.is_empty());
    assert_eq!(first, second);
    assert!(first.contains("$(var.ProductName)"));
}
