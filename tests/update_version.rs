use wallpaper_layer::commands::{update_report, OfferedUpdate};
use wallpaper_layer::error::AppError;
use wallpaper_layer::version::validate_update_version;

#[test]
fn test_update_version_allows_upgrade() {
    assert!(validate_update_version("1.0.0", "1.0.1").is_ok());
    assert!(validate_update_version("1.0.0", "1.1.0").is_ok());
    assert!(validate_update_version("1.0.0", "2.0.0").is_ok());
    assert!(validate_update_version("1.0.223", "1.0.224").is_ok());
}

#[test]
fn test_update_version_allows_same() {
    assert!(validate_update_version("1.0.0", "1.0.0").is_ok());
}

#[test]
fn test_update_version_rejects_downgrade() {
    assert!(validate_update_version("1.0.224", "1.0.223").is_err());
    assert!(validate_update_version("2.0.0", "1.9.9").is_err());
    assert!(validate_update_version("1.1.0", "1.0.99").is_err());
}

#[test]
fn test_update_version_handles_prefixes() {
    assert!(validate_update_version("1.0.0", "v1.0.1").is_ok());
    assert!(validate_update_version("v1.0.0", "1.0.1").is_ok());
    assert!(validate_update_version("1.0.1-dev", "1.0.1").is_ok());
}

#[test]
fn downgrade_message_names_both_versions() {
    assert_eq!(
        validate_update_version("v2.10.3-beta", "2.9.40"),
        Err("Refusing downgrade from 2.10.3 to 2.9.40".to_string())
    );
}

#[test]
fn malformed_versions_give_each_error() {
    assert_eq!(
        validate_update_version("1.0", "1.0.0"),
        Err("Invalid version format: 1.0".to_string())
    );
    assert_eq!(
        validate_update_version("1.0.0", "vv1.2.3.4-rc"),
        Err("Invalid version format: 1.2.3.4".to_string())
    );
    assert_eq!(
        validate_update_version("x.0.0", "1.0.0"),
        Err("Invalid major version".to_string())
    );
    assert_eq!(
        validate_update_version("1.0.0", "1..0"),
        Err("Invalid minor version".to_string())
    );
    assert_eq!(
        validate_update_version("1.0.4294967296", "1.0.0"),
        Err("Invalid patch version".to_string())
    );
}

#[test]
fn version_numbers_take_plus_sign_and_full_range() {
    assert!(validate_update_version("+1.0.0", "1.0.4294967295").is_ok());
    assert!(validate_update_version("1.0.4294967295", "1.0.4294967294").is_err());
    assert!(validate_update_version("1.0.+", "1.0.0").is_err());
}

#[test]
fn update_report_refuses_downgrade_and_reports_upgrade() {
    let none = update_report("1.2.0", None);
    assert!(matches!(none, Ok(None)));
    let older = OfferedUpdate { version: "1.1.9".to_string(), body: None, date: None };
    match update_report("1.2.0", Some(older)) {
        Err(AppError::Validation(m)) => assert_eq!(m, "Refusing downgrade from 1.2.0 to 1.1.9"),
        other => panic!("unexpected {:?}", other),
    }
    let newer = OfferedUpdate {
        version: "1.3.0".to_string(),
        body: Some("notes".to_string()),
        date: None,
    };
    match update_report("1.2.0", Some(newer)) {
        Ok(Some(info)) => {
            assert_eq!(info.version, "1.3.0");
            assert_eq!(info.current_version, "1.2.0");
            assert_eq!(info.body, Some("notes".to_string()));
            assert_eq!(info.date, None);
        }
        other => panic!("unexpected {:?}", other),
    }
}
