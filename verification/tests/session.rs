use hyprspaces::config::Config;
use hyprspaces::hyprctl::{ClientInfo, MonitorInfo, WorkspaceInfo, WorkspaceRef};
use hyprspaces::session::{
    normalized_eq, restore_batch, session_path, RestoreMode, SessionSnapshot, SnapshotClient,
    SnapshotFocus,
};

fn test_config() -> Config {
    Config {
        primary_monitor: "DP-1".to_string(),
        secondary_monitor: "HDMI-A-1".to_string(),
        paired_offset: 10,
        workspace_count: 10,
        wrap_cycling: true,
    }
}

fn bare_snapshot_client(address: &str, workspace_id: u32, paired_slot: u32) -> SnapshotClient {
    SnapshotClient {
        address: address.to_string(),
        class: None,
        title: None,
        initial_class: None,
        initial_title: None,
        app_id: None,
        pid: None,
        workspace_id,
        workspace_name: None,
        paired_slot,
    }
}

fn bare_client(address: &str, workspace_id: u32) -> ClientInfo {
    ClientInfo {
        address: address.to_string(),
        workspace: WorkspaceRef {
            id: workspace_id,
            name: None,
        },
        class: None,
        title: None,
        initial_class: None,
        initial_title: None,
        app_id: None,
        pid: None,
    }
}

#[test]
fn session_path_defaults_to_latest() {
    let base = "/tmp/hyprspaces";

    let path = session_path(base, None);

    assert_eq!(path, "/tmp/hyprspaces/sessions/latest.json");
}

#[test]
fn session_path_uses_override() {
    let base = "/tmp/hyprspaces";
    let override_path = "/tmp/custom/session.json";

    let path = session_path(base, Some(override_path));

    assert_eq!(path, override_path);
}

#[test]
fn snapshot_computes_paired_slot_and_focus() {
    let config = test_config();
    let monitors = vec![MonitorInfo {
        name: "HDMI-A-1".to_string(),
        x: 0,
        id: 1,
    }];
    let workspaces = vec![WorkspaceInfo {
        id: 13,
        windows: 1,
        name: Some("13".to_string()),
        monitor: Some("HDMI-A-1".to_string()),
    }];
    let clients = vec![ClientInfo {
        address: "0x123".to_string(),
        workspace: WorkspaceRef {
            id: 13,
            name: Some("13".to_string()),
        },
        class: Some("kitty".to_string()),
        title: Some("term".to_string()),
        initial_class: None,
        initial_title: None,
        app_id: None,
        pid: Some(4242),
    }];

    let snapshot = SessionSnapshot::from_state(
        &config,
        Some("sig".to_string()),
        13,
        monitors,
        workspaces,
        clients,
    );

    assert_eq!(snapshot.focus.workspace_id, 13);
    assert_eq!(snapshot.focus.monitor.as_deref(), Some("HDMI-A-1"));
    assert_eq!(snapshot.clients[0].paired_slot, 3);
}

#[test]
fn snapshot_keeps_raw_id_for_special_workspaces() {
    let config = test_config();
    let clients = vec![ClientInfo {
        address: "0x77".to_string(),
        workspace: WorkspaceRef {
            id: 42,
            name: Some("special:scratch".to_string()),
        },
        class: None,
        title: None,
        initial_class: None,
        initial_title: None,
        app_id: None,
        pid: None,
    }];

    let snapshot =
        SessionSnapshot::from_state(&config, None, 1, Vec::new(), Vec::new(), clients);

    assert_eq!(snapshot.clients[0].paired_slot, 42);
}

#[test]
fn restore_same_session_moves_mismatched_clients() {
    let config = test_config();
    let snapshot = SessionSnapshot {
        version: 1,
        created_at: 0,
        signature: Some("sig".to_string()),
        paired_offset: 10,
        workspace_count: 10,
        focus: SnapshotFocus {
            monitor: None,
            workspace_id: 1,
        },
        monitors: Vec::new(),
        workspaces: Vec::new(),
        clients: vec![bare_snapshot_client("0xabc", 2, 2)],
    };
    let current_clients = vec![bare_client("0xabc", 1)];

    let batch = restore_batch(
        &snapshot,
        RestoreMode::Same,
        Some("sig"),
        &current_clients,
        &config,
    );

    assert_eq!(
        batch.to_argument(),
        "dispatch movetoworkspacesilent 2,address:0xabc"
    );
}

#[test]
fn restore_cold_matches_by_app_id() {
    let config = test_config();
    let mut snapshot_client = bare_snapshot_client("0xabc", 4, 4);
    snapshot_client.app_id = Some("org.gnome.Nautilus".to_string());
    let snapshot = SessionSnapshot {
        version: 1,
        created_at: 0,
        signature: Some("sig".to_string()),
        paired_offset: 10,
        workspace_count: 10,
        focus: SnapshotFocus {
            monitor: None,
            workspace_id: 1,
        },
        monitors: Vec::new(),
        workspaces: Vec::new(),
        clients: vec![snapshot_client],
    };
    let mut live = bare_client("0xdef", 1);
    live.app_id = Some("org.gnome.Nautilus".to_string());
    let current_clients = vec![live];

    let batch = restore_batch(
        &snapshot,
        RestoreMode::Cold,
        Some("sig"),
        &current_clients,
        &config,
    );

    assert_eq!(
        batch.to_argument(),
        "dispatch movetoworkspacesilent 4,address:0xdef"
    );
}

#[test]
fn cold_restore_rejects_ambiguous_tie() {
    let config = test_config();
    let mut first = bare_snapshot_client("0xa1", 4, 4);
    first.app_id = Some("org.example.App".to_string());
    let mut second = bare_snapshot_client("0xa2", 5, 5);
    second.app_id = Some("org.example.App".to_string());
    let snapshot = SessionSnapshot {
        version: 1,
        created_at: 0,
        signature: None,
        paired_offset: 10,
        workspace_count: 10,
        focus: SnapshotFocus {
            monitor: None,
            workspace_id: 1,
        },
        monitors: Vec::new(),
        workspaces: Vec::new(),
        clients: vec![first, second],
    };
    let mut live = bare_client("0xdef", 1);
    live.app_id = Some("org.example.App".to_string());
    let current_clients = vec![live];

    let batch = restore_batch(
        &snapshot,
        RestoreMode::Cold,
        None,
        &current_clients,
        &config,
    );

    assert_eq!(batch.to_argument(), "");
}

#[test]
fn auto_mode_with_matching_signature_restores_by_address() {
    let config = test_config();
    let snapshot = SessionSnapshot {
        version: 1,
        created_at: 0,
        signature: Some("sig".to_string()),
        paired_offset: 10,
        workspace_count: 10,
        focus: SnapshotFocus {
            monitor: None,
            workspace_id: 1,
        },
        monitors: Vec::new(),
        workspaces: Vec::new(),
        clients: vec![bare_snapshot_client("0xabc", 2, 2)],
    };
    let current_clients = vec![bare_client("0xabc", 1)];

    let batch = restore_batch(
        &snapshot,
        RestoreMode::Auto,
        Some("sig"),
        &current_clients,
        &config,
    );

    assert_eq!(
        batch.to_argument(),
        "dispatch movetoworkspacesilent 2,address:0xabc"
    );
}

#[test]
fn auto_mode_with_different_signature_falls_back_to_cold() {
    let config = test_config();
    let snapshot = SessionSnapshot {
        version: 1,
        created_at: 0,
        signature: Some("old-sig".to_string()),
        paired_offset: 10,
        workspace_count: 10,
        focus: SnapshotFocus {
            monitor: None,
            workspace_id: 1,
        },
        monitors: Vec::new(),
        workspaces: Vec::new(),
        clients: vec![bare_snapshot_client("0xabc", 4, 4)],
    };
    // The live client reuses the recorded address but matches nothing by
    // identity, so a same-session restore would move it to workspace 4;
    // cold restore ignores the address and only re-normalizes the
    // out-of-range client to its pairing slot.
    let current_clients = vec![bare_client("0xabc", 12)];

    let batch = restore_batch(
        &snapshot,
        RestoreMode::Auto,
        Some("new-sig"),
        &current_clients,
        &config,
    );

    assert_eq!(
        batch.to_argument(),
        "dispatch movetoworkspacesilent 2,address:0xabc"
    );
}

#[test]
fn cold_restore_matches_case_insensitively_and_trimmed() {
    let config = test_config();
    let mut snapshot_client = bare_snapshot_client("0xabc", 4, 4);
    snapshot_client.app_id = Some("ORG.Example.App".to_string());
    let snapshot = SessionSnapshot {
        version: 1,
        created_at: 0,
        signature: None,
        paired_offset: 10,
        workspace_count: 10,
        focus: SnapshotFocus {
            monitor: None,
            workspace_id: 1,
        },
        monitors: Vec::new(),
        workspaces: Vec::new(),
        clients: vec![snapshot_client],
    };
    let mut live = bare_client("0xdef", 1);
    live.app_id = Some("  org.example.app ".to_string());
    let current_clients = vec![live];

    let batch = restore_batch(
        &snapshot,
        RestoreMode::Cold,
        None,
        &current_clients,
        &config,
    );

    assert_eq!(
        batch.to_argument(),
        "dispatch movetoworkspacesilent 4,address:0xdef"
    );
}

#[test]
fn same_session_restores_special_workspace_by_name() {
    let config = test_config();
    let mut snapshot_client = bare_snapshot_client("0xabc", 42, 42);
    snapshot_client.workspace_name = Some("special:scratch".to_string());
    let snapshot = SessionSnapshot {
        version: 1,
        created_at: 0,
        signature: Some("sig".to_string()),
        paired_offset: 10,
        workspace_count: 10,
        focus: SnapshotFocus {
            monitor: None,
            workspace_id: 1,
        },
        monitors: Vec::new(),
        workspaces: Vec::new(),
        clients: vec![snapshot_client],
    };
    let current_clients = vec![bare_client("0xabc", 3)];

    let batch = restore_batch(
        &snapshot,
        RestoreMode::Same,
        Some("sig"),
        &current_clients,
        &config,
    );

    assert_eq!(
        batch.to_argument(),
        "dispatch movetoworkspacesilent special:scratch,address:0xabc"
    );
}

#[test]
fn normalized_eq_folds_case_and_trims() {
    assert!(normalized_eq(
        &Some("  Kitty ".to_string()),
        &Some("kitty".to_string())
    ));
    assert!(!normalized_eq(
        &Some("kitty".to_string()),
        &Some("alacritty".to_string())
    ));
    assert!(!normalized_eq(&None, &Some("kitty".to_string())));
}
