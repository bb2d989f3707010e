use impellers::Error;
use impellers::ImpellerVersion;
use impellers::VERSION_MAJOR;
use impellers::VERSION_MINOR;
use impellers::VERSION_PATCH;
use impellers::VERSION_VARIANT;

#[test]
fn test_version() {
    let linked = ImpellerVersion::new(VERSION_VARIANT, VERSION_MAJOR, VERSION_MINOR, VERSION_PATCH);
    assert_eq!(ImpellerVersion::get_header_version().get_variant(), VERSION_VARIANT);
    assert_eq!(linked.get_variant(), VERSION_VARIANT);
    assert_eq!(ImpellerVersion::get_header_version().get_major(), VERSION_MAJOR);
    assert_eq!(linked.get_major(), VERSION_MAJOR);
    assert_eq!(ImpellerVersion::get_header_version().get_minor(), VERSION_MINOR);
    assert_eq!(linked.get_minor(), VERSION_MINOR);
    assert_eq!(ImpellerVersion::get_header_version().get_patch(), VERSION_PATCH);
    assert_eq!(linked.get_patch(), VERSION_PATCH);
}

#[test]
fn test_version_roundtrip_fields() {
    let cases: Vec<(u32, u32, u32, u32)> = vec![
        (0, 0, 0, 0),
        (7, 127, 1023, 4095),
        (1, 1, 3, 0),
        (3, 64, 512, 2048),
        (5, 17, 999, 1),
    ];
    for (variant, major, minor, patch) in cases {
        let v = ImpellerVersion::new(variant, major, minor, patch);
        assert_eq!(v.get_variant(), variant);
        assert_eq!(v.get_major(), major);
        assert_eq!(v.get_minor(), minor);
        assert_eq!(v.get_patch(), patch);
    }
}

#[test]
fn test_sanity_check_matching() {
    assert!(ImpellerVersion::sanity_check(ImpellerVersion::get_header_version()));
    assert!(ImpellerVersion::require_matching(ImpellerVersion::get_header_version()).is_ok());
}

#[test]
fn test_sanity_check_mismatch() {
    let other = ImpellerVersion::new(VERSION_VARIANT, VERSION_MAJOR, VERSION_MINOR + 1,
        VERSION_PATCH);
    assert!(!ImpellerVersion::sanity_check(other));
    assert_eq!(ImpellerVersion::require_matching(other), Err(Error::VersionMismatch));
}
