use std::cell::RefCell;
use std::rc::Rc;

use hyprspaces::config::Config;
use hyprspaces::daemon::{
    event_name, flush_pending_rebalance_at, focus_switch_for_event_at, process_event,
    rebalance_all, rebalance_batch_for_event, rebalance_for_event, rebalance_for_event_at,
    should_rebalance, socket2_path, DaemonEvent, FocusSwitchDebounce, MonitorEventKind,
    RebalanceDebounce,
};
use hyprspaces::hyprctl::{paired_switch_batch, rebalance_batch, Hyprctl, HyprctlRunner};

fn test_config() -> Config {
    Config {
        primary_monitor: "DP-1".to_string(),
        secondary_monitor: "HDMI-A-1".to_string(),
        paired_offset: 2,
        workspace_count: 2,
        wrap_cycling: true,
    }
}

#[test]
fn extracts_event_name_from_socket2_line() {
    assert_eq!(event_name("monitoradded>>DP-1"), "monitoradded");
    assert_eq!(
        event_name("monitorremovedv2>>1,DP-1,desc"),
        "monitorremovedv2"
    );
    assert_eq!(event_name("focusedmon>>DP-1,1"), "focusedmon");
}

#[test]
fn leaves_event_name_when_separator_missing() {
    assert_eq!(event_name("monitoradded"), "monitoradded");
}

#[test]
fn rebalance_on_monitor_add_remove() {
    assert!(should_rebalance("monitoradded>>DP-1"));
    assert!(should_rebalance("monitorremovedv2>>1,DP-1,desc"));
    assert!(!should_rebalance("focusedmon>>DP-1,1"));
}

#[test]
fn builds_socket2_path() {
    let path = socket2_path("/run/user/1000", "abc");

    assert_eq!(path, "/run/user/1000/hypr/abc/.socket2.sock");
}

#[test]
fn rebalance_batch_only_on_monitor_events() {
    let expected = rebalance_batch("DP-1", "HDMI-A-1", 2);

    assert_eq!(
        rebalance_batch_for_event("DP-1", "HDMI-A-1", 2, "monitoradded>>DP-1"),
        Some(expected.clone())
    );
    assert_eq!(
        rebalance_batch_for_event("DP-1", "HDMI-A-1", 2, "focusedmon>>DP-1,1"),
        None
    );
}

#[derive(Clone, Default)]
struct RecordingRunner {
    calls: Rc<RefCell<Vec<Vec<String>>>>,
    clients_json: Option<String>,
}

impl RecordingRunner {
    fn with_clients(clients_json: &str) -> Self {
        Self {
            calls: Rc::new(RefCell::new(Vec::new())),
            clients_json: Some(clients_json.to_string()),
        }
    }
}

impl HyprctlRunner for RecordingRunner {
    fn run(&self, args: &[String]) -> Result<String, hyprspaces::hyprctl::HyprctlError> {
        self.calls.borrow_mut().push(args.to_vec());
        if args == ["-j".to_string(), "clients".to_string()] {
            return match self.clients_json.as_ref() {
                Some(payload) => Ok(payload.clone()),
                None => Ok("[]".to_string()),
            };
        }
        Ok("ok".to_string())
    }
}

#[test]
fn switches_pair_on_focusedmonv2_event() {
    let runner = RecordingRunner::default();
    let hyprctl = Hyprctl::new(runner.clone());
    let config = test_config();
    let mut debounce = FocusSwitchDebounce::new(100);

    assert!(focus_switch_for_event_at(
        &hyprctl,
        &config,
        "focusedmonv2>>DP-1,3",
        &mut debounce,
        1_000,
    )
    .expect("switch"));

    let calls = runner.calls.borrow();
    assert_eq!(calls.len(), 1);
    assert_eq!(
        calls[0],
        vec![
            "--batch".to_string(),
            paired_switch_batch("DP-1", "HDMI-A-1", 3, 2)
        ]
    );
}

#[test]
fn switches_pair_on_activewindowv2_event() {
    let runner = RecordingRunner::with_clients(r#"[{"address":"0x123","workspace":{"id":4}}]"#);
    let hyprctl = Hyprctl::new(runner.clone());
    let config = test_config();
    let mut debounce = FocusSwitchDebounce::new(100);

    assert!(focus_switch_for_event_at(
        &hyprctl,
        &config,
        "activewindowv2>>0x123",
        &mut debounce,
        1_000,
    )
    .expect("switch"));

    let calls = runner.calls.borrow();
    assert_eq!(calls.len(), 2);
    assert_eq!(
        calls[1],
        vec![
            "--batch".to_string(),
            paired_switch_batch("DP-1", "HDMI-A-1", 4, 2)
        ]
    );
}

#[test]
fn debounces_repeated_focus_events() {
    let runner = RecordingRunner::default();
    let hyprctl = Hyprctl::new(runner.clone());
    let config = test_config();
    let mut debounce = FocusSwitchDebounce::new(100);
    let start: u64 = 5_000;

    assert!(focus_switch_for_event_at(
        &hyprctl,
        &config,
        "focusedmonv2>>DP-1,3",
        &mut debounce,
        start,
    )
    .expect("switch"));
    assert!(!focus_switch_for_event_at(
        &hyprctl,
        &config,
        "focusedmonv2>>DP-1,3",
        &mut debounce,
        start + 10,
    )
    .expect("debounced"));

    let calls = runner.calls.borrow();
    assert_eq!(calls.len(), 1);
}

#[test]
fn debounces_paired_focus_events() {
    let runner = RecordingRunner::default();
    let hyprctl = Hyprctl::new(runner.clone());
    let config = test_config();
    let mut debounce = FocusSwitchDebounce::new(100);
    let start: u64 = 5_000;

    assert!(focus_switch_for_event_at(
        &hyprctl,
        &config,
        "focusedmonv2>>DP-1,3",
        &mut debounce,
        start,
    )
    .expect("switch"));
    assert!(!focus_switch_for_event_at(
        &hyprctl,
        &config,
        "focusedmonv2>>DP-1,1",
        &mut debounce,
        start + 10,
    )
    .expect("debounced"));

    let calls = runner.calls.borrow();
    assert_eq!(calls.len(), 1);
}

#[test]
fn allows_focus_switch_to_new_target_within_window() {
    let runner = RecordingRunner::default();
    let hyprctl = Hyprctl::new(runner.clone());
    let mut config = test_config();
    config.paired_offset = 10;
    config.workspace_count = 10;
    let mut debounce = FocusSwitchDebounce::new(100);
    let start: u64 = 5_000;

    assert!(focus_switch_for_event_at(
        &hyprctl,
        &config,
        "focusedmonv2>>DP-1,3",
        &mut debounce,
        start,
    )
    .expect("switch"));
    assert!(focus_switch_for_event_at(
        &hyprctl,
        &config,
        "focusedmonv2>>DP-1,4",
        &mut debounce,
        start + 10,
    )
    .expect("switch to new target"));

    let calls = runner.calls.borrow();
    assert_eq!(calls.len(), 2);
}

#[test]
fn rebalance_all_runs_batch() {
    let runner = RecordingRunner::default();
    let hyprctl = Hyprctl::new(runner.clone());
    let config = test_config();

    rebalance_all(&hyprctl, &config).expect("rebalance");

    let calls = runner.calls.borrow();
    assert_eq!(calls.len(), 1);
    assert_eq!(
        calls[0],
        vec!["--batch".to_string(), rebalance_batch("DP-1", "HDMI-A-1", 2)]
    );
}

#[test]
fn rebalance_for_event_runs_only_on_monitor_events() {
    let runner = RecordingRunner::default();
    let hyprctl = Hyprctl::new(runner.clone());
    let config = test_config();

    assert!(rebalance_for_event(&hyprctl, &config, "monitoradded>>DP-1").expect("rebalance"));
    assert!(!rebalance_for_event(&hyprctl, &config, "focusedmon>>DP-1,1").expect("skip"));

    let calls = runner.calls.borrow();
    assert_eq!(calls.len(), 1);
}

#[test]
fn debounces_rebalance_events_within_window() {
    let runner = RecordingRunner::default();
    let hyprctl = Hyprctl::new(runner.clone());
    let config = test_config();
    let mut debounce = RebalanceDebounce::new(200);
    let start: u64 = 5_000;

    assert!(rebalance_for_event_at(
        &hyprctl,
        &config,
        MonitorEventKind::Added,
        &mut debounce,
        start,
    )
    .expect("rebalance"));
    assert!(!rebalance_for_event_at(
        &hyprctl,
        &config,
        MonitorEventKind::Removed,
        &mut debounce,
        start + 50,
    )
    .expect("debounced"));

    let calls = runner.calls.borrow();
    assert_eq!(calls.len(), 1);
}

#[test]
fn flushes_pending_rebalance_after_burst() {
    let runner = RecordingRunner::default();
    let hyprctl = Hyprctl::new(runner.clone());
    let config = test_config();
    let mut debounce = RebalanceDebounce::new(200);
    let start: u64 = 5_000;

    assert!(rebalance_for_event_at(
        &hyprctl,
        &config,
        MonitorEventKind::Added,
        &mut debounce,
        start,
    )
    .expect("rebalance"));
    assert!(!rebalance_for_event_at(
        &hyprctl,
        &config,
        MonitorEventKind::Removed,
        &mut debounce,
        start + 50,
    )
    .expect("debounced"));

    assert!(
        flush_pending_rebalance_at(&hyprctl, &config, &mut debounce, start + 260).expect("flush")
    );

    let calls = runner.calls.borrow();
    assert_eq!(calls.len(), 2);
}

#[test]
fn flush_before_quiet_period_is_noop() {
    let runner = RecordingRunner::default();
    let hyprctl = Hyprctl::new(runner.clone());
    let config = test_config();
    let mut debounce = RebalanceDebounce::new(200);
    let start: u64 = 5_000;

    assert!(rebalance_for_event_at(
        &hyprctl,
        &config,
        MonitorEventKind::Added,
        &mut debounce,
        start,
    )
    .expect("rebalance"));
    assert!(!rebalance_for_event_at(
        &hyprctl,
        &config,
        MonitorEventKind::Removed,
        &mut debounce,
        start + 50,
    )
    .expect("debounced"));
    assert!(
        !flush_pending_rebalance_at(&hyprctl, &config, &mut debounce, start + 100).expect("noop")
    );

    let calls = runner.calls.borrow();
    assert_eq!(calls.len(), 1);
}

#[test]
fn process_event_flushes_pending_rebalance() {
    let runner = RecordingRunner::default();
    let hyprctl = Hyprctl::new(runner.clone());
    let config = test_config();
    let mut debounce = RebalanceDebounce::new(200);
    let mut focus_debounce = FocusSwitchDebounce::new(100);
    let start: u64 = 5_000;

    assert!(process_event(
        &hyprctl,
        &config,
        &mut debounce,
        &mut focus_debounce,
        DaemonEvent::Monitor {
            kind: MonitorEventKind::Added,
            at: start,
        },
    )
    .expect("rebalance"));
    assert!(!process_event(
        &hyprctl,
        &config,
        &mut debounce,
        &mut focus_debounce,
        DaemonEvent::Monitor {
            kind: MonitorEventKind::Removed,
            at: start + 50,
        },
    )
    .expect("debounced"));
    assert!(process_event(
        &hyprctl,
        &config,
        &mut debounce,
        &mut focus_debounce,
        DaemonEvent::Timeout { at: start + 260 },
    )
    .expect("flush"));

    let calls = runner.calls.borrow();
    assert_eq!(calls.len(), 2);
}

#[test]
fn allows_rebalance_after_debounce_window() {
    let runner = RecordingRunner::default();
    let hyprctl = Hyprctl::new(runner.clone());
    let config = test_config();
    let mut debounce = RebalanceDebounce::new(200);
    let start: u64 = 5_000;

    assert!(rebalance_for_event_at(
        &hyprctl,
        &config,
        MonitorEventKind::Added,
        &mut debounce,
        start,
    )
    .expect("rebalance"));
    assert!(rebalance_for_event_at(
        &hyprctl,
        &config,
        MonitorEventKind::Removed,
        &mut debounce,
        start + 250,
    )
    .expect("rebalance again"));

    let calls = runner.calls.borrow();
    assert_eq!(calls.len(), 2);
}

#[test]
fn ignores_unrecognized_event_names() {
    assert!(!should_rebalance("activelayout>>kbd,us"));
    assert!(!should_rebalance("no separator here"));
    assert_eq!(
        rebalance_batch_for_event("DP-1", "HDMI-A-1", 2, "openwindow>>0x1,2,App,T"),
        None
    );
}

#[test]
fn ignores_workspace_id_that_overflows() {
    let runner = RecordingRunner::default();
    let hyprctl = Hyprctl::new(runner.clone());
    let config = test_config();
    let mut debounce = FocusSwitchDebounce::new(100);

    assert!(!focus_switch_for_event_at(
        &hyprctl,
        &config,
        "workspace>>4294967296",
        &mut debounce,
        1_000,
    )
    .expect("ignored"));

    let calls = runner.calls.borrow();
    assert_eq!(calls.len(), 0);
}
