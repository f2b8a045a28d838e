use hyprspaces::paths::{config_dir, config_path, hypr_config_dir};

#[test]
fn uses_xdg_config_when_provided() {
    let home = "/home/jtaw";
    let xdg = "/tmp/config";

    assert_eq!(config_dir(home, Some(xdg)), "/tmp/config");
}

#[test]
fn defaults_to_home_config_dir() {
    let home = "/home/jtaw";

    assert_eq!(config_dir(home, None), "/home/jtaw/.config");
}

#[test]
fn builds_hyprspaces_config_path() {
    let home = "/home/jtaw";

    assert_eq!(
        config_path(home, None),
        "/home/jtaw/.config/hyprspaces/paired.json"
    );
}

#[test]
fn builds_hypr_config_dir() {
    let home = "/home/jtaw";

    assert_eq!(hypr_config_dir(home, None), "/home/jtaw/.config/hypr");
}
