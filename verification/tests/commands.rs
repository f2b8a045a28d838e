use std::cell::RefCell;
use std::rc::Rc;

use hyprspaces::commands::{grab_rogue_windows, migrate_windows, paired_cycle, paired_move_window};
use hyprspaces::config::Config;
use hyprspaces::hyprctl::{Hyprctl, HyprctlRunner};
use hyprspaces::paired::CycleDirection;

#[derive(Clone)]
struct ScriptedRunner {
    active_id: u32,
    clients_json: String,
    calls: Rc<RefCell<Vec<Vec<String>>>>,
}

impl ScriptedRunner {
    fn new(active_id: u32, clients_json: &str) -> Self {
        Self {
            active_id,
            clients_json: clients_json.to_string(),
            calls: Rc::new(RefCell::new(Vec::new())),
        }
    }
}

impl HyprctlRunner for ScriptedRunner {
    fn run(&self, args: &[String]) -> Result<String, hyprspaces::hyprctl::HyprctlError> {
        self.calls.borrow_mut().push(args.to_vec());
        if args == ["-j".to_string(), "activeworkspace".to_string()] {
            return Ok(format!(r#"{{"id":{}}}"#, self.active_id));
        }
        if args == ["-j".to_string(), "clients".to_string()] {
            return Ok(self.clients_json.clone());
        }
        Ok("ok".to_string())
    }
}

fn config() -> Config {
    Config {
        primary_monitor: "DP-1".to_string(),
        secondary_monitor: "HDMI-A-1".to_string(),
        paired_offset: 10,
        workspace_count: 10,
        wrap_cycling: true,
    }
}

#[test]
fn cycles_to_next_workspace() {
    let runner = ScriptedRunner::new(12, "[]");
    let hyprctl = Hyprctl::new(runner.clone());

    paired_cycle(&hyprctl, &config(), CycleDirection::Next).expect("cycle");

    let calls = runner.calls.borrow();
    assert!(calls.iter().any(|call| {
        call == &vec![
            "--batch".to_string(),
            "dispatch focusmonitor DP-1 ; dispatch workspace 3 ; dispatch focusmonitor HDMI-A-1 ; dispatch workspace 13".to_string(),
        ]
    }));
}

#[test]
fn moves_window_and_switches_pair() {
    let runner = ScriptedRunner::new(12, "[]");
    let hyprctl = Hyprctl::new(runner.clone());

    paired_move_window(&hyprctl, &config(), 2).expect("move");

    let calls = runner.calls.borrow();
    assert!(calls.iter().any(|call| {
        call == &vec![
            "dispatch".to_string(),
            "movetoworkspacesilent".to_string(),
            "12".to_string(),
        ]
    }));
}

#[test]
fn move_window_keeps_focus_on_secondary_monitor() {
    let runner = ScriptedRunner::new(12, "[]");
    let hyprctl = Hyprctl::new(runner.clone());

    paired_move_window(&hyprctl, &config(), 2).expect("move");

    let calls = runner.calls.borrow();
    assert!(calls.iter().any(|call| {
        call == &vec![
            "--batch".to_string(),
            "dispatch focusmonitor DP-1 ; dispatch workspace 2 ; dispatch focusmonitor HDMI-A-1 ; dispatch workspace 12".to_string(),
        ]
    }));
}

#[test]
fn migrates_windows_from_secondary() {
    let clients_json =
        r#"[{"address":"0x123","workspace":{"id":12}},{"address":"0x456","workspace":{"id":1}}]"#;
    let runner = ScriptedRunner::new(1, clients_json);
    let hyprctl = Hyprctl::new(runner.clone());

    let migrated = migrate_windows(&hyprctl, &config()).expect("migrate");

    assert_eq!(migrated, 1);
    let calls = runner.calls.borrow();
    assert!(calls.iter().any(|call| {
        call == &vec![
            "dispatch".to_string(),
            "movetoworkspacesilent".to_string(),
            "2,address:0x123".to_string(),
        ]
    }));
}

#[test]
fn grabs_rogue_windows_from_secondary_range() {
    let clients_json =
        r#"[{"address":"0x123","workspace":{"id":12}},{"address":"0x456","workspace":{"id":1}}]"#;
    let runner = ScriptedRunner::new(1, clients_json);
    let hyprctl = Hyprctl::new(runner.clone());

    let migrated = grab_rogue_windows(&hyprctl, &config()).expect("grab");

    assert_eq!(migrated, 1);
    let calls = runner.calls.borrow();
    assert!(calls.iter().any(|call| {
        call == &vec![
            "dispatch".to_string(),
            "movetoworkspacesilent".to_string(),
            "2,address:0x123".to_string(),
        ]
    }));
}
