use ec2_cli::settings::{MAX_TAG_KEY_LEN, MAX_TAG_VALUE_LEN};
use ec2_cli::{Ec2CliError, Settings};

#[test]
fn test_validate_tag_key_valid() {
    assert!(Settings::validate_tag_key("Username").is_ok());
    assert!(Settings::validate_tag_key("Project").is_ok());
    assert!(Settings::validate_tag_key("my-tag-123").is_ok());
}

#[test]
fn test_validate_tag_key_invalid() {
    assert!(Settings::validate_tag_key("").is_err());
    assert!(Settings::validate_tag_key("aws:reserved").is_err());
    assert!(Settings::validate_tag_key(&"a".repeat(129)).is_err());
    assert!(Settings::validate_tag_key("tag\nkey").is_err());
}

#[test]
fn test_validate_tag_value_valid() {
    assert!(Settings::validate_tag_value("myvalue").is_ok());
    assert!(Settings::validate_tag_value("").is_ok()); // Empty is allowed
    assert!(Settings::validate_tag_value("value with spaces").is_ok());
}

#[test]
fn test_validate_tag_value_invalid() {
    assert!(Settings::validate_tag_value(&"a".repeat(257)).is_err());
    assert!(Settings::validate_tag_value("value\nwith\nnewlines").is_err());
}

#[test]
fn test_set_tag() {
    let mut settings = Settings::default();
    assert!(settings.set_tag("Username", "testuser").is_ok());
    assert_eq!(settings.tags.get("Username"), Some(&"testuser".to_string()));
}

#[test]
fn test_remove_tag() {
    let mut settings = Settings::default();
    settings.tags.insert("Username".to_string(), "testuser".to_string());
    let removed = settings.remove_tag("Username");
    assert_eq!(removed, Some("testuser".to_string()));
    assert!(!settings.tags.contains_key("Username"));
}

#[test]
fn test_has_username_tag() {
    let mut settings = Settings::default();
    assert!(!settings.has_username_tag());
    settings.tags.insert("Username".to_string(), "testuser".to_string());
    assert!(settings.has_username_tag());
}

#[test]
fn tag_key_length_limits() {
    assert!(Settings::validate_tag_key(&"k".repeat(MAX_TAG_KEY_LEN)).is_ok());
    assert!(Settings::validate_tag_key(&"k".repeat(MAX_TAG_KEY_LEN + 1)).is_err());
    assert!(Settings::validate_tag_key("a").is_ok());
}

#[test]
fn tag_value_length_limits() {
    assert!(Settings::validate_tag_value(&"v".repeat(MAX_TAG_VALUE_LEN)).is_ok());
    assert!(Settings::validate_tag_value(&"~".repeat(256)).is_ok());
    assert!(Settings::validate_tag_value(&"v".repeat(MAX_TAG_VALUE_LEN + 1)).is_err());
}

#[test]
fn tag_reserved_prefix_only_at_start() {
    assert!(Settings::validate_tag_key("aws:").is_err());
    assert!(Settings::validate_tag_key("my-aws:key").is_ok());
    assert!(Settings::validate_tag_key("aws").is_ok());
    assert!(Settings::validate_tag_key("AWS:key").is_ok());
}

#[test]
fn tag_non_printable_characters_rejected() {
    assert!(Settings::validate_tag_key("tab\tkey").is_err());
    assert!(Settings::validate_tag_key("caf\u{e9}").is_err());
    assert!(Settings::validate_tag_key("del\u{7f}").is_err());
    assert!(Settings::validate_tag_value("caf\u{e9}").is_err());
    assert!(Settings::validate_tag_value("bell\u{7}").is_err());
    assert!(Settings::validate_tag_value(" ~!").is_ok());
}

#[test]
fn tag_errors_are_config_errors() {
    assert!(matches!(Settings::validate_tag_key(""), Err(Ec2CliError::Config(_))));
    assert!(matches!(Settings::validate_tag_value("\n"), Err(Ec2CliError::Config(_))));
}

#[test]
fn set_tag_rejects_and_keeps_settings() {
    let mut settings = Settings::default();
    settings.set_tag("Team", "infra").unwrap();
    assert!(matches!(settings.set_tag("aws:owner", "x"), Err(Ec2CliError::Config(_))));
    assert!(matches!(settings.set_tag("Team", "bad\nvalue"), Err(Ec2CliError::Config(_))));
    assert_eq!(settings.tags.len(), 1);
    assert_eq!(settings.tags.get("Team"), Some(&"infra".to_string()));
}

#[test]
fn set_tag_overwrites_and_keeps_order() {
    let mut settings = Settings::default();
    settings.set_tag("A", "1").unwrap();
    settings.set_tag("B", "2").unwrap();
    settings.set_tag("A", "3").unwrap();
    assert_eq!(settings.tags.len(), 2);
    let (k0, v0) = settings.tags.entry(0);
    let (k1, v1) = settings.tags.entry(1);
    assert_eq!((k0.as_str(), v0.as_str()), ("A", "3"));
    assert_eq!((k1.as_str(), v1.as_str()), ("B", "2"));
}

#[test]
fn remove_missing_tag_returns_none() {
    let mut settings = Settings::default();
    assert_eq!(settings.remove_tag("Nope"), None);
    assert!(settings.tags.is_empty());
}
