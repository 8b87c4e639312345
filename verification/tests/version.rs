use dig_nft::version;

#[test]
fn version_is_reported() {
    assert!(!version().is_empty());
}

#[test]
fn version_is_the_package_version() {
    assert_eq!(version(), "0.1.0");
}
