use fileguard_admin::admin::check_version;
use fileguard_admin::admin::RuleError;
use fileguard_admin::{get_version_info, CoreVersion};

#[test]
fn version_displays_dotted() {
    let v = CoreVersion { major: 1, minor: 2, patch: 3, build: 4 };
    assert_eq!(v.to_string(), "1.2.3.4");
}

#[test]
fn version_displays_large_and_zero_fields() {
    let v = CoreVersion { major: 0, minor: 10, patch: 4294967295, build: 1907 };
    assert_eq!(v.to_string(), "0.10.4294967295.1907");
}

#[test]
fn version_info_with_and_without_core() {
    assert_eq!(get_version_info("a1b2c3d4", None), "a1b2c3d4");
    let v = CoreVersion { major: 1, minor: 0, patch: 2, build: 30 };
    assert_eq!(get_version_info("a1b2c3d4", Some(v)), "a1b2c3d4 core 1.0.2.30");
}

#[test]
fn major_version_must_match() {
    assert!(CoreVersion { major: 1, minor: 9, patch: 9, build: 9 }.is_compatible(1));
    assert_eq!(check_version(&CoreVersion { major: 1, minor: 5, patch: 0, build: 0 }), Ok(()));
    assert_eq!(
        check_version(&CoreVersion { major: 2, minor: 0, patch: 0, build: 0 }),
        Err(RuleError::VersionMismatch)
    );
}
