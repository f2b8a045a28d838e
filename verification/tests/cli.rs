use hyprspaces::cli::{cmdline_is_daemon, daemon_pid_path, parse_cmdline, CliError, WaybarArgs};

#[test]
fn waybar_requires_enable_flag() {
    let args = WaybarArgs {
        theme_css: None,
        enable_waybar: false,
    };

    let err = args.ensure_enabled().expect_err("expected disabled error");

    assert!(matches!(err, CliError::WaybarDisabled));
}

#[test]
fn waybar_allows_enabled_flag() {
    let args = WaybarArgs {
        theme_css: None,
        enable_waybar: true,
    };

    args.ensure_enabled().expect("enabled");
}

#[test]
fn cmdline_detects_daemon() {
    let args = vec!["/usr/bin/hyprspaces".to_string(), "daemon".to_string()];

    assert!(cmdline_is_daemon(&args));
}

#[test]
fn cmdline_ignores_non_daemon() {
    let args = vec![
        "/usr/bin/hyprspaces".to_string(),
        "setup".to_string(),
        "install".to_string(),
    ];

    assert!(!cmdline_is_daemon(&args));
}

#[test]
fn parses_nul_separated_cmdline() {
    let bytes = b"/usr/bin/hyprspaces\0daemon\0";

    let args = parse_cmdline(bytes);

    assert_eq!(
        args,
        vec!["/usr/bin/hyprspaces".to_string(), "daemon".to_string()]
    );
    assert!(cmdline_is_daemon(&args));
}

#[test]
fn parse_cmdline_skips_empty_segments() {
    let args = parse_cmdline(b"\0\0a\0\0b");

    assert_eq!(args, vec!["a".to_string(), "b".to_string()]);
}

#[test]
fn builds_daemon_pid_path() {
    assert_eq!(
        daemon_pid_path("/home/jtaw/.config/hyprspaces"),
        "/home/jtaw/.config/hyprspaces/daemon.pid"
    );
}
