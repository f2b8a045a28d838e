use std::cell::RefCell;
use std::rc::Rc;

use hyprspaces::hyprctl::{
    paired_switch_batch, rebalance_batch, Hyprctl, HyprctlBatch, HyprctlError, HyprctlRunner,
};

#[test]
fn batch_builds_dispatch_commands() {
    let mut batch = HyprctlBatch::new();
    batch.dispatch("focusmonitor", "HDMI-A-1");
    batch.dispatch("workspace", "13");

    assert_eq!(
        batch.to_argument(),
        "dispatch focusmonitor HDMI-A-1 ; dispatch workspace 13"
    );
}

#[test]
fn paired_switch_batch_normalizes_workspace() {
    let batch = paired_switch_batch("DP-1", "HDMI-A-1", 12, 10);

    assert_eq!(
        batch,
        "dispatch focusmonitor HDMI-A-1 ; dispatch workspace 12 ; dispatch focusmonitor DP-1 ; dispatch workspace 2"
    );
}

#[test]
fn rebalance_batch_moves_workspaces_by_offset() {
    let batch = rebalance_batch("DP-1", "HDMI-A-1", 2);

    assert_eq!(
        batch,
        "dispatch moveworkspacetomonitor 1 DP-1 ; dispatch moveworkspacetomonitor 2 DP-1 ; dispatch moveworkspacetomonitor 3 HDMI-A-1 ; dispatch moveworkspacetomonitor 4 HDMI-A-1"
    );
}

#[test]
fn empty_batch_renders_as_empty_argument() {
    let batch = HyprctlBatch::new();

    assert_eq!(batch.to_argument(), "");
}

#[derive(Clone, Default)]
struct RecordingRunner {
    calls: Rc<RefCell<Vec<Vec<String>>>>,
}

impl HyprctlRunner for RecordingRunner {
    fn run(&self, args: &[String]) -> Result<String, HyprctlError> {
        self.calls.borrow_mut().push(args.to_vec());
        Ok("ok".to_string())
    }
}

#[test]
fn batch_executes_hyprctl_with_argument() {
    let runner = RecordingRunner::default();
    let hyprctl = Hyprctl::new(runner.clone());

    hyprctl
        .batch("dispatch workspace 1")
        .expect("batch should succeed");

    let calls = runner.calls.borrow();
    assert_eq!(calls.len(), 1);
    assert_eq!(
        calls[0],
        vec!["--batch".to_string(), "dispatch workspace 1".to_string()]
    );
}

#[test]
fn dispatch_runs_hyprctl_dispatch() {
    let runner = RecordingRunner::default();
    let hyprctl = Hyprctl::new(runner.clone());

    hyprctl
        .dispatch("movetoworkspacesilent", "2")
        .expect("dispatch");

    let calls = runner.calls.borrow();
    assert_eq!(
        calls[0],
        vec![
            "dispatch".to_string(),
            "movetoworkspacesilent".to_string(),
            "2".to_string()
        ]
    );
}

#[test]
fn reload_runs_hyprctl_reload() {
    let runner = RecordingRunner::default();
    let hyprctl = Hyprctl::new(runner.clone());

    hyprctl.reload().expect("reload");

    let calls = runner.calls.borrow();
    assert_eq!(calls[0], vec!["reload".to_string()]);
}

#[derive(Clone)]
struct StaticRunner {
    response: String,
    calls: Rc<RefCell<Vec<Vec<String>>>>,
}

impl StaticRunner {
    fn new(response: &str) -> Self {
        Self {
            response: response.to_string(),
            calls: Rc::new(RefCell::new(Vec::new())),
        }
    }
}

impl HyprctlRunner for StaticRunner {
    fn run(&self, args: &[String]) -> Result<String, HyprctlError> {
        self.calls.borrow_mut().push(args.to_vec());
        Ok(self.response.clone())
    }
}

#[test]
fn parses_active_workspace_id_from_json() {
    let runner = StaticRunner::new(r#"{"id":42}"#);
    let hyprctl = Hyprctl::new(runner.clone());

    assert_eq!(hyprctl.active_workspace_id().expect("id"), 42);

    let calls = runner.calls.borrow();
    assert_eq!(
        calls[0],
        vec!["-j".to_string(), "activeworkspace".to_string()]
    );
}

#[test]
fn parses_monitors_from_json() {
    let runner = StaticRunner::new(
        r#"[{"name":"DP-1","x":0,"id":1},{"name":"HDMI-A-1","x":1920,"id":2}]"#,
    );
    let hyprctl = Hyprctl::new(runner.clone());

    let monitors = hyprctl.monitors().expect("monitors");

    assert_eq!(monitors.len(), 2);
    assert_eq!(monitors[0].name, "DP-1");
    assert_eq!(monitors[1].id, 2);

    let calls = runner.calls.borrow();
    assert_eq!(calls[0], vec!["-j".to_string(), "monitors".to_string()]);
}

#[test]
fn parses_workspaces_from_json() {
    let runner = StaticRunner::new(r#"[{"id":1,"windows":2},{"id":12,"windows":0}]"#);
    let hyprctl = Hyprctl::new(runner.clone());

    let workspaces = hyprctl.workspaces().expect("workspaces");

    assert_eq!(workspaces.len(), 2);
    assert_eq!(workspaces[0].id, 1);
    assert_eq!(workspaces[1].windows, 0);

    let calls = runner.calls.borrow();
    assert_eq!(calls[0], vec!["-j".to_string(), "workspaces".to_string()]);
}

#[test]
fn parses_clients_from_json() {
    let runner = StaticRunner::new(
        r#"[{"address":"0x123","workspace":{"id":12}},{"address":"0x456","workspace":{"id":1}}]"#,
    );
    let hyprctl = Hyprctl::new(runner.clone());

    let clients = hyprctl.clients().expect("clients");

    assert_eq!(clients.len(), 2);
    assert_eq!(clients[0].address, "0x123");
    assert_eq!(clients[1].workspace.id, 1);

    let calls = runner.calls.borrow();
    assert_eq!(calls[0], vec!["-j".to_string(), "clients".to_string()]);
}

#[test]
fn monitors_parse_error_includes_command_context() {
    let runner = StaticRunner::new("not json");
    let hyprctl = Hyprctl::new(runner);

    let err = hyprctl.monitors().expect_err("parse error");

    match err {
        HyprctlError::Json { command, .. } => {
            assert_eq!(command, "monitors");
        }
        _ => panic!("expected json error"),
    }
}

#[test]
fn client_parse_accepts_aliased_identity_keys() {
    let runner = StaticRunner::new(
        r#"[{"address":"0x9","workspace":{"id":3},"initialclass":"kitty","appId":"org.kde.dolphin"}]"#,
    );
    let hyprctl = Hyprctl::new(runner);

    let clients = hyprctl.clients().expect("clients");

    assert_eq!(clients[0].initial_class.as_deref(), Some("kitty"));
    assert_eq!(clients[0].app_id.as_deref(), Some("org.kde.dolphin"));
}

#[test]
fn workspace_id_out_of_range_is_a_parse_error() {
    let runner = StaticRunner::new(r#"[{"id":-99,"windows":0}]"#);
    let hyprctl = Hyprctl::new(runner);

    let err = hyprctl.workspaces().expect_err("parse error");

    assert!(matches!(err, HyprctlError::Json { .. }));
}
