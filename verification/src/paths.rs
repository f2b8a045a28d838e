//! Well-known configuration locations, derived from the home directory
//! and an optional XDG override.
use vstd::prelude::*;
use vstd::string::StringExecFns;

verus! {

/// The configuration root: the XDG configuration directory when set,
/// `.config` under the home directory otherwise.
pub fn config_dir(home: &str, xdg_config: Option<&str>) -> (r: String)
    ensures
        r@ == match xdg_config {
            Some(xdg) => xdg@,
            None => home@ + "/.config"@,
        },
{
    match xdg_config {
        Some(xdg) => String::from_str(xdg),
        None => {
            let mut dir = String::from_str(home);
            dir.append("/.config");
            dir
        },
    }
}

/// The pairing configuration file under the configuration root.
pub fn config_path(home: &str, xdg_config: Option<&str>) -> (r: String)
    ensures
        r@ == match xdg_config {
            Some(xdg) => xdg@ + "/hyprspaces/paired.json"@,
            None => home@ + "/.config"@ + "/hyprspaces/paired.json"@,
        },
{
    let mut path = config_dir(home, xdg_config);
    path.append("/hyprspaces/paired.json");
    path
}

/// The compositor's own configuration directory under the root.
pub fn hypr_config_dir(home: &str, xdg_config: Option<&str>) -> (r: String)
    ensures
        r@ == match xdg_config {
            Some(xdg) => xdg@ + "/hypr"@,
            None => home@ + "/.config"@ + "/hypr"@,
        },
{
    let mut path = config_dir(home, xdg_config);
    path.append("/hypr");
    path
}

} // verus!
