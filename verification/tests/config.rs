use hyprspaces::config::{Config, ConfigError};

#[test]
fn parses_config_with_explicit_offset() {
    let input = r#"{"primary_monitor":"DP-1","secondary_monitor":"HDMI-A-1","paired_offset":12}"#;

    let config = Config::from_json(input).expect("config should parse");

    assert_eq!(config.primary_monitor, "DP-1");
    assert_eq!(config.secondary_monitor, "HDMI-A-1");
    assert_eq!(config.paired_offset, 12);
    assert_eq!(config.workspace_count, 12);
}

#[test]
fn parses_config_with_workspace_count() {
    let input = r#"{"primary_monitor":"DP-1","secondary_monitor":"HDMI-A-1","workspace_count":6}"#;

    let config = Config::from_json(input).expect("config should parse");

    assert_eq!(config.paired_offset, 6);
    assert_eq!(config.workspace_count, 6);
}

#[test]
fn workspace_count_takes_precedence_over_paired_offset() {
    let input = r#"{"primary_monitor":"DP-1","secondary_monitor":"HDMI-A-1","paired_offset":8,"workspace_count":6}"#;

    let config = Config::from_json(input).expect("config should parse");

    assert_eq!(config.paired_offset, 6);
    assert_eq!(config.workspace_count, 6);
}

#[test]
fn parses_config_via_from_str_trait() {
    let input = r#"{"primary_monitor":"DP-1","secondary_monitor":"HDMI-A-1"}"#;

    let config: Config = input.parse().expect("parse via trait");

    assert_eq!(config.primary_monitor, "DP-1");
    assert_eq!(config.secondary_monitor, "HDMI-A-1");
    assert_eq!(config.paired_offset, 10);
    assert_eq!(config.workspace_count, 10);
}

#[test]
fn defaults_offset_when_missing() {
    let input = r#"{"primary_monitor":"DP-1","secondary_monitor":"HDMI-A-1"}"#;

    let config = Config::from_json(input).expect("config should parse");

    assert_eq!(config.paired_offset, 10);
    assert_eq!(config.workspace_count, 10);
}

#[test]
fn defaults_workspace_count_from_paired_offset() {
    let input = r#"{"primary_monitor":"DP-1","secondary_monitor":"HDMI-A-1","paired_offset":8}"#;

    let config = Config::from_json(input).expect("config should parse");

    assert_eq!(config.paired_offset, 8);
    assert_eq!(config.workspace_count, 8);
}

#[test]
fn errors_when_primary_missing() {
    let input = r#"{"secondary_monitor":"HDMI-A-1","paired_offset":10}"#;

    let error = Config::from_json(input).expect_err("config should fail");

    assert!(matches!(error, ConfigError::MissingField("primary_monitor")));
}

#[test]
fn errors_when_secondary_missing() {
    let input = r#"{"primary_monitor":"DP-1","paired_offset":10}"#;

    let error = Config::from_json(input).expect_err("config should fail");

    assert!(matches!(
        error,
        ConfigError::MissingField("secondary_monitor")
    ));
}

#[test]
fn errors_on_unparseable_json() {
    let error = Config::from_json("not json").expect_err("config should fail");

    assert!(matches!(error, ConfigError::InvalidJson));
}

#[test]
fn errors_on_ill_typed_offset() {
    let input = r#"{"primary_monitor":"DP-1","secondary_monitor":"HDMI-A-1","paired_offset":"x"}"#;

    let error = Config::from_json(input).expect_err("config should fail");

    assert!(matches!(error, ConfigError::InvalidJson));
}

#[test]
fn errors_when_primary_empty() {
    let input = r#"{"primary_monitor":"","secondary_monitor":"HDMI-A-1"}"#;

    let error = Config::from_json(input).expect_err("config should fail");

    assert!(matches!(error, ConfigError::MissingField("primary_monitor")));
}

#[test]
fn reads_wrap_cycling_flag() {
    let input = r#"{"primary_monitor":"DP-1","secondary_monitor":"HDMI-A-1","wrap_cycling":false}"#;

    let config = Config::from_json(input).expect("config should parse");

    assert!(!config.wrap_cycling);

    let defaulted = Config::from_json(r#"{"primary_monitor":"DP-1","secondary_monitor":"HDMI-A-1"}"#)
        .expect("config should parse");

    assert!(defaulted.wrap_cycling);
}
