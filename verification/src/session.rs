//! Session snapshot and restore: capturing window placement as a plain
//! record and computing the minimal set of silent moves that brings a
//! later session back to it, by address within one compositor instance
//! and by heuristic identity matching across instances.
use vstd::prelude::*;
use vstd::string::StringExecFns;

use crate::config::Config;
use crate::hyprctl::{ClientInfo, MonitorInfo, WorkspaceInfo};
use crate::paired::{normalize_workspace, spec_normalize};
use crate::strutil::{
    lower_of, lowercase, spec_starts_with, spec_string_views, spec_trim, str_eq, str_starts_with,
    trim,
};

verus! {

pub const SESSION_VERSION: u32 = 1;

/// A captured session: configuration echo, focus, and the placement of
/// every monitor, workspace and client at capture time.  Never mutated
/// after capture.
#[derive(Debug, PartialEq, Eq)]
pub struct SessionSnapshot {
    pub version: u32,
    pub created_at: u64,
    pub signature: Option<String>,
    pub paired_offset: u32,
    pub workspace_count: u32,
    pub focus: SnapshotFocus,
    pub monitors: Vec<SnapshotMonitor>,
    pub workspaces: Vec<SnapshotWorkspace>,
    pub clients: Vec<SnapshotClient>,
}

/// Where focus sat at capture time.
#[derive(Debug, PartialEq, Eq)]
pub struct SnapshotFocus {
    pub monitor: Option<String>,
    pub workspace_id: u32,
}

/// A monitor at capture time.
#[derive(Debug, PartialEq, Eq)]
pub struct SnapshotMonitor {
    pub id: i32,
    pub name: String,
}

/// A workspace at capture time.
#[derive(Debug, PartialEq, Eq)]
pub struct SnapshotWorkspace {
    pub id: u32,
    pub name: Option<String>,
    pub monitor: Option<String>,
    pub windows: u32,
}

/// A client at capture time: identity attributes for matching, plus its
/// recorded placement.
#[derive(Debug, PartialEq, Eq)]
pub struct SnapshotClient {
    pub address: String,
    pub class: Option<String>,
    pub title: Option<String>,
    pub initial_class: Option<String>,
    pub initial_title: Option<String>,
    pub app_id: Option<String>,
    pub pid: Option<i32>,
    pub workspace_id: u32,
    pub workspace_name: Option<String>,
    pub paired_slot: u32,
}

/// How restore matches clients: `Auto` picks `Same` when the snapshot's
/// runtime signature equals the current one and `Cold` otherwise.
#[derive(Debug, Clone, Copy, PartialEq, Eq, Structural)]
pub enum RestoreMode {
    Auto,
    Same,
    Cold,
}

/// Whether a workspace name marks a "special" workspace, exempt from
/// pairing normalization.
pub open spec fn spec_is_special(name: Option<String>) -> bool {
    match name {
        Some(n) => spec_starts_with(n@, "special:"@),
        None => false,
    }
}

/// Tests for the special-workspace name prefix.
pub fn is_special_workspace_name(name: &Option<String>) -> (r: bool)
    ensures
        r == spec_is_special(*name),
{
    match name {
        Some(n) => str_starts_with(n.as_str(), "special:"),
        None => false,
    }
}

/// The pairing slot recorded for a client: a special workspace keeps its
/// raw id, an ordinary positive id is normalized, and a zero id is kept
/// as it is.
pub open spec fn spec_paired_slot(client: ClientInfo, offset: int) -> int {
    if spec_is_special(client.workspace.name) {
        client.workspace.id as int
    } else if client.workspace.id >= 1 {
        spec_normalize(client.workspace.id as int, offset)
    } else {
        client.workspace.id as int
    }
}

/// The monitor of the first listed workspace whose id is `active`, when
/// that workspace names one.
pub open spec fn spec_focus_monitor(workspaces: Seq<WorkspaceInfo>, active: u32) -> Option<String>
    decreases workspaces.len(),
{
    if workspaces.len() == 0 {
        None
    } else if workspaces[0].id == active {
        workspaces[0].monitor
    } else {
        spec_focus_monitor(workspaces.drop_first(), active)
    }
}

/// Relies on `std::time::SystemTime::now` for the capture timestamp in
/// seconds since the epoch; nothing is assumed of the value.
#[verifier::external_body]
fn epoch_seconds() -> u64 {
    match std::time::SystemTime::now().duration_since(std::time::UNIX_EPOCH) {
        Ok(elapsed) => elapsed.as_secs(),
        Err(_) => 0,
    }
}

/// Clones an optional string.
fn clone_opt_string(value: &Option<String>) -> (r: Option<String>)
    ensures
        r == *value,
{
    match value {
        Some(v) => Some(v.clone()),
        None => None,
    }
}

/// Looks up the monitor of the workspace whose id is `active`.
fn focus_monitor_of(workspaces: &Vec<WorkspaceInfo>, active: u32) -> (r: Option<String>)
    ensures
        r == spec_focus_monitor(workspaces@, active),
{
    let mut i: usize = 0;
    proof {
        assert(workspaces@.subrange(0, workspaces@.len() as int) =~= workspaces@);
    }
    while i < workspaces.len()
        invariant
            i <= workspaces@.len(),
            spec_focus_monitor(workspaces@, active) == spec_focus_monitor(
                workspaces@.subrange(i as int, workspaces@.len() as int),
                active,
            ),
        decreases workspaces@.len() - i,
    {
        proof {
            let rest = workspaces@.subrange(i as int, workspaces@.len() as int);
            assert(rest[0] == workspaces@[i as int]);
            assert(rest.drop_first() =~= workspaces@.subrange(
                i as int + 1,
                workspaces@.len() as int,
            ));
        }
        if workspaces[i].id == active {
            return clone_opt_string(&workspaces[i].monitor);
        }
        i = i + 1;
    }
    proof {
        assert(workspaces@.subrange(workspaces@.len() as int, workspaces@.len() as int) =~= Seq::<
            WorkspaceInfo,
        >::empty());
    }
    None
}

impl SessionSnapshot {
    /// Captures the current state as a snapshot: focus is resolved from
    /// the workspace list, and every client records the pairing slot it
    /// belongs to.  Capturing never changes compositor state.
    pub fn from_state(
        config: &Config,
        signature: Option<String>,
        active_workspace_id: u32,
        monitors: Vec<MonitorInfo>,
        workspaces: Vec<WorkspaceInfo>,
        clients: Vec<ClientInfo>,
    ) -> (r: SessionSnapshot)
        requires
            config.wf(),
        ensures
            r.version == SESSION_VERSION,
            r.signature == signature,
            r.paired_offset == config.paired_offset,
            r.workspace_count == config.workspace_count,
            r.focus.workspace_id == active_workspace_id,
            r.focus.monitor == spec_focus_monitor(workspaces@, active_workspace_id),
            r.monitors@.len() == monitors@.len(),
            forall|i: int|
                0 <= i < monitors@.len() ==> (#[trigger] r.monitors@[i]).id == monitors@[i].id
                    && r.monitors@[i].name == monitors@[i].name,
            r.workspaces@.len() == workspaces@.len(),
            forall|i: int|
                0 <= i < workspaces@.len() ==> (#[trigger] r.workspaces@[i]).id
                    == workspaces@[i].id && r.workspaces@[i].name == workspaces@[i].name
                    && r.workspaces@[i].monitor == workspaces@[i].monitor && r.workspaces@[i].windows
                    == workspaces@[i].windows,
            r.clients@.len() == clients@.len(),
            forall|i: int|
                0 <= i < clients@.len() ==> (#[trigger] r.clients@[i]).address
                    == clients@[i].address && r.clients@[i].class == clients@[i].class
                    && r.clients@[i].title == clients@[i].title && r.clients@[i].initial_class
                    == clients@[i].initial_class && r.clients@[i].initial_title
                    == clients@[i].initial_title && r.clients@[i].app_id == clients@[i].app_id
                    && r.clients@[i].pid == clients@[i].pid && r.clients@[i].workspace_id
                    == clients@[i].workspace.id && r.clients@[i].workspace_name
                    == clients@[i].workspace.name && r.clients@[i].paired_slot == spec_paired_slot(
                    clients@[i],
                    config.paired_offset as int,
                ),
    {
        let focus_monitor = focus_monitor_of(&workspaces, active_workspace_id);

        let mut snapshot_monitors: Vec<SnapshotMonitor> = Vec::new();
        let mut i: usize = 0;
        while i < monitors.len()
            invariant
                i <= monitors@.len(),
                snapshot_monitors@.len() == i,
                forall|k: int|
                    0 <= k < i ==> (#[trigger] snapshot_monitors@[k]).id == monitors@[k].id
                        && snapshot_monitors@[k].name == monitors@[k].name,
            decreases monitors@.len() - i,
        {
            let monitor = &monitors[i];
            snapshot_monitors.push(
                SnapshotMonitor { id: monitor.id, name: monitor.name.clone() },
            );
            i = i + 1;
        }

        let mut snapshot_workspaces: Vec<SnapshotWorkspace> = Vec::new();
        let mut i: usize = 0;
        while i < workspaces.len()
            invariant
                i <= workspaces@.len(),
                snapshot_workspaces@.len() == i,
                forall|k: int|
                    0 <= k < i ==> (#[trigger] snapshot_workspaces@[k]).id == workspaces@[k].id
                        && snapshot_workspaces@[k].name == workspaces@[k].name
                        && snapshot_workspaces@[k].monitor == workspaces@[k].monitor
                        && snapshot_workspaces@[k].windows == workspaces@[k].windows,
            decreases workspaces@.len() - i,
        {
            let workspace = &workspaces[i];
            snapshot_workspaces.push(
                SnapshotWorkspace {
                    id: workspace.id,
                    name: clone_opt_string(&workspace.name),
                    monitor: clone_opt_string(&workspace.monitor),
                    windows: workspace.windows,
                },
            );
            i = i + 1;
        }

        let mut snapshot_clients: Vec<SnapshotClient> = Vec::new();
        let mut i: usize = 0;
        while i < clients.len()
            invariant
                config.wf(),
                i <= clients@.len(),
                snapshot_clients@.len() == i,
                forall|k: int|
                    0 <= k < i ==> (#[trigger] snapshot_clients@[k]).address
                        == clients@[k].address && snapshot_clients@[k].class == clients@[k].class
                        && snapshot_clients@[k].title == clients@[k].title
                        && snapshot_clients@[k].initial_class == clients@[k].initial_class
                        && snapshot_clients@[k].initial_title == clients@[k].initial_title
                        && snapshot_clients@[k].app_id == clients@[k].app_id
                        && snapshot_clients@[k].pid == clients@[k].pid
                        && snapshot_clients@[k].workspace_id == clients@[k].workspace.id
                        && snapshot_clients@[k].workspace_name == clients@[k].workspace.name
                        && snapshot_clients@[k].paired_slot == spec_paired_slot(
                        clients@[k],
                        config.paired_offset as int,
                    ),
            decreases clients@.len() - i,
        {
            let client = &clients[i];
            let paired_slot: u32 = if is_special_workspace_name(&client.workspace.name) {
                client.workspace.id
            } else if client.workspace.id >= 1 {
                normalize_workspace(client.workspace.id, config.paired_offset)
            } else {
                client.workspace.id
            };
            snapshot_clients.push(
                SnapshotClient {
                    address: client.address.clone(),
                    class: clone_opt_string(&client.class),
                    title: clone_opt_string(&client.title),
                    initial_class: clone_opt_string(&client.initial_class),
                    initial_title: clone_opt_string(&client.initial_title),
                    app_id: clone_opt_string(&client.app_id),
                    pid: client.pid,
                    workspace_id: client.workspace.id,
                    workspace_name: clone_opt_string(&client.workspace.name),
                    paired_slot,
                },
            );
            i = i + 1;
        }

        SessionSnapshot {
            version: SESSION_VERSION,
            created_at: epoch_seconds(),
            signature,
            paired_offset: config.paired_offset,
            workspace_count: config.workspace_count,
            focus: SnapshotFocus { monitor: focus_monitor, workspace_id: active_workspace_id },
            monitors: snapshot_monitors,
            workspaces: snapshot_workspaces,
            clients: snapshot_clients,
        }
    }
}

/// The session file location: an explicit override wins; otherwise the
/// file sits at `sessions/latest.json` under the base directory.
pub fn session_path(base_dir: &str, override_path: Option<&str>) -> (r: String)
    ensures
        r@ == match override_path {
            Some(p) => p@,
            None => base_dir@ + "/sessions/latest.json"@,
        },
{
    match override_path {
        Some(p) => String::from_str(p),
        None => {
            let mut path = String::from_str(base_dir);
            path.append("/sessions/latest.json");
            path
        },
    }
}


/// View equality of two optional strings.
pub open spec fn spec_opt_view_eq(a: Option<String>, b: Option<String>) -> bool {
    match (a, b) {
        (Some(x), Some(y)) => x@ == y@,
        (None, None) => true,
        _ => false,
    }
}

/// The mode a restore actually runs in: `Auto` resolves to `Same` exactly
/// when the snapshot carries a signature equal to the current one, and to
/// `Cold` otherwise; explicit modes stand.
pub open spec fn spec_resolve_restore_mode(
    mode: RestoreMode,
    snapshot_signature: Option<Seq<char>>,
    current_signature: Option<Seq<char>>,
) -> RestoreMode {
    match mode {
        RestoreMode::Auto => match (snapshot_signature, current_signature) {
            (Some(s), Some(c)) => if s == c {
                RestoreMode::Same
            } else {
                RestoreMode::Cold
            },
            _ => RestoreMode::Cold,
        },
        other => other,
    }
}

/// The view of an optional borrowed string.
pub open spec fn spec_opt_str_view(s: Option<&str>) -> Option<Seq<char>> {
    match s {
        Some(text) => Some(text@),
        None => None,
    }
}

/// Resolves the restore mode against the two runtime signatures.
pub fn resolve_restore_mode(
    mode: RestoreMode,
    snapshot_signature: Option<&str>,
    current_signature: Option<&str>,
) -> (r: RestoreMode)
    ensures
        r == spec_resolve_restore_mode(
            mode,
            spec_opt_str_view(snapshot_signature),
            spec_opt_str_view(current_signature),
        ),
{
    match mode {
        RestoreMode::Auto => match (snapshot_signature, current_signature) {
            (Some(s), Some(c)) => if str_eq(s, c) {
                RestoreMode::Same
            } else {
                RestoreMode::Cold
            },
            _ => RestoreMode::Cold,
        },
        other => other,
    }
}

/// Whether two optional identity attributes match: both present and
/// equal after trimming and case folding; a missing side never matches.
pub open spec fn spec_normalized_eq(a: Option<String>, b: Option<String>) -> bool {
    match (a, b) {
        (Some(x), Some(y)) => lower_of(spec_trim(x@)) == lower_of(spec_trim(y@)),
        _ => false,
    }
}

/// Compares two optional identity attributes, trimmed and case-folded.
pub fn normalized_eq(left: &Option<String>, right: &Option<String>) -> (r: bool)
    ensures
        r == spec_normalized_eq(*left, *right),
{
    match (left, right) {
        (Some(l), Some(r_)) => {
            let lt = trim(l.as_str());
            let rt = trim(r_.as_str());
            let ll = lowercase(lt.as_str());
            let rl = lowercase(rt.as_str());
            str_eq(ll.as_str(), rl.as_str())
        },
        _ => false,
    }
}

/// The weighted identity score of a snapshot client against a live one:
/// application id four, window class three, initial class two, title one.
pub open spec fn spec_match_score(snapshot: SnapshotClient, client: ClientInfo) -> int {
    (if spec_normalized_eq(snapshot.app_id, client.app_id) {
        4int
    } else {
        0int
    }) + (if spec_normalized_eq(snapshot.class, client.class) {
        3int
    } else {
        0int
    }) + (if spec_normalized_eq(snapshot.initial_class, client.initial_class) {
        2int
    } else {
        0int
    }) + (if spec_normalized_eq(snapshot.title, client.title) {
        1int
    } else {
        0int
    })
}

/// Scores a snapshot client against a live client.
pub fn match_score(snapshot: &SnapshotClient, client: &ClientInfo) -> (r: u8)
    ensures
        r as int == spec_match_score(*snapshot, *client),
{
    let mut score: u8 = 0;
    if normalized_eq(&snapshot.app_id, &client.app_id) {
        score = score + 4;
    }
    if normalized_eq(&snapshot.class, &client.class) {
        score = score + 3;
    }
    if normalized_eq(&snapshot.initial_class, &client.initial_class) {
        score = score + 2;
    }
    if normalized_eq(&snapshot.title, &client.title) {
        score = score + 1;
    }
    score
}

/// The restore target of a snapshot client: the workspace name for a
/// special workspace, the numeric id otherwise.
pub open spec fn spec_workspace_target(snapshot: SnapshotClient) -> Seq<char> {
    if spec_is_special(snapshot.workspace_name) {
        match snapshot.workspace_name {
            Some(name) => name@,
            None => crate::strutil::spec_u32_digits(snapshot.workspace_id as nat),
        }
    } else {
        crate::strutil::spec_u32_digits(snapshot.workspace_id as nat)
    }
}

/// Renders the restore target of a snapshot client.
pub fn workspace_target(snapshot: &SnapshotClient) -> (r: String)
    ensures
        r@ == spec_workspace_target(*snapshot),
{
    if is_special_workspace_name(&snapshot.workspace_name) {
        match &snapshot.workspace_name {
            Some(name) => name.clone(),
            None => crate::strutil::u32_to_string(snapshot.workspace_id),
        }
    } else {
        crate::strutil::u32_to_string(snapshot.workspace_id)
    }
}

/// Whether a snapshot client's recorded placement equals the current
/// one: by workspace name for special workspaces, by id otherwise.
pub open spec fn spec_snapshot_matches_current(
    snapshot: SnapshotClient,
    current_id: u32,
    current_name: Option<String>,
) -> bool {
    if spec_is_special(snapshot.workspace_name) {
        spec_opt_view_eq(snapshot.workspace_name, current_name)
    } else {
        snapshot.workspace_id == current_id
    }
}

/// Compares recorded and current placement of one client.
pub fn snapshot_matches_current(
    snapshot: &SnapshotClient,
    current_id: u32,
    current_name: &Option<String>,
) -> (r: bool)
    ensures
        r == spec_snapshot_matches_current(*snapshot, current_id, *current_name),
{
    if is_special_workspace_name(&snapshot.workspace_name) {
        match (&snapshot.workspace_name, current_name) {
            (Some(a), Some(b)) => str_eq(a.as_str(), b.as_str()),
            (None, None) => true,
            _ => false,
        }
    } else {
        snapshot.workspace_id == current_id
    }
}

/// The last listed live client at `address`, mirroring a lookup table
/// filled in list order.
pub open spec fn spec_lookup_current(clients: Seq<ClientInfo>, address: Seq<char>) -> Option<
    ClientInfo,
>
    decreases clients.len(),
{
    if clients.len() == 0 {
        None
    } else if clients.last().address@ == address {
        Some(clients.last())
    } else {
        spec_lookup_current(clients.drop_last(), address)
    }
}

/// Finds the live client at `address`.
fn lookup_current<'a>(clients: &'a [ClientInfo], address: &str) -> (r: Option<&'a ClientInfo>)
    ensures
        match r {
            Some(client) => spec_lookup_current(clients@, address@) == Some(*client),
            None => spec_lookup_current(clients@, address@) is None,
        },
{
    let mut i: usize = clients.len();
    proof {
        assert(clients@.subrange(0, clients@.len() as int) =~= clients@);
    }
    while i > 0
        invariant
            i <= clients@.len(),
            spec_lookup_current(clients@, address@) == spec_lookup_current(
                clients@.subrange(0, i as int),
                address@,
            ),
        decreases i,
    {
        i = i - 1;
        proof {
            let prefix = clients@.subrange(0, i as int + 1);
            assert(prefix.last() == clients@[i as int]);
            assert(prefix.drop_last() =~= clients@.subrange(0, i as int));
        }
        let client = vstd::slice::slice_index_get(clients, i);
        if str_eq(client.address.as_str(), address) {
            return Some(client);
        }
    }
    proof {
        assert(clients@.subrange(0, 0) =~= Seq::<ClientInfo>::empty());
    }
    None
}

/// The same-session move commands: for each snapshot client, a silent
/// move back to its recorded placement when a live client still carries
/// its address but sits elsewhere, in snapshot order.
pub open spec fn spec_same_session_cmds(
    snapshot_clients: Seq<SnapshotClient>,
    current: Seq<ClientInfo>,
) -> Seq<Seq<char>>
    decreases snapshot_clients.len(),
{
    if snapshot_clients.len() == 0 {
        Seq::empty()
    } else {
        let rest = spec_same_session_cmds(snapshot_clients.drop_first(), current);
        let snapshot = snapshot_clients[0];
        match spec_lookup_current(current, snapshot.address@) {
            Some(client) => if !spec_snapshot_matches_current(
                snapshot,
                client.workspace.id,
                client.workspace.name,
            ) {
                seq![
                    crate::hyprctl::spec_dispatch_cmd(
                        "movetoworkspacesilent"@,
                        crate::hyprctl::spec_move_target_arg(
                            spec_workspace_target(snapshot),
                            snapshot.address@,
                        ),
                    ),
                ] + rest
            } else {
                rest
            },
            None => rest,
        }
    }
}

/// Matches live clients to snapshot clients by address and moves each
/// mismatched one back to its recorded placement.
pub fn restore_same_session(snapshot: &SessionSnapshot, current_clients: &[ClientInfo]) -> (r:
    crate::hyprctl::HyprctlBatch)
    ensures
        r@ == spec_same_session_cmds(snapshot.clients@, current_clients@),
{
    let mut batch = crate::hyprctl::HyprctlBatch::new();
    let mut i: usize = 0;
    proof {
        assert(snapshot.clients@.subrange(0, snapshot.clients@.len() as int)
            =~= snapshot.clients@);
        assert(batch@ + spec_same_session_cmds(snapshot.clients@, current_clients@)
            =~= spec_same_session_cmds(snapshot.clients@, current_clients@));
    }
    while i < snapshot.clients.len()
        invariant
            i <= snapshot.clients@.len(),
            spec_same_session_cmds(snapshot.clients@, current_clients@) =~= batch@
                + spec_same_session_cmds(
                snapshot.clients@.subrange(i as int, snapshot.clients@.len() as int),
                current_clients@,
            ),
        decreases snapshot.clients@.len() - i,
    {
        proof {
            let rest = snapshot.clients@.subrange(i as int, snapshot.clients@.len() as int);
            assert(rest[0] == snapshot.clients@[i as int]);
            assert(rest.drop_first() =~= snapshot.clients@.subrange(
                i as int + 1,
                snapshot.clients@.len() as int,
            ));
        }
        let client = &snapshot.clients[i];
        match lookup_current(current_clients, client.address.as_str()) {
            Some(current) => {
                if !snapshot_matches_current(
                    client,
                    current.workspace.id,
                    &current.workspace.name,
                ) {
                    let target = workspace_target(client);
                    let argument = crate::hyprctl::move_target_arg(
                        target.as_str(),
                        client.address.as_str(),
                    );
                    batch.dispatch("movetoworkspacesilent", argument.as_str());
                }
            },
            None => {},
        }
        i = i + 1;
    }
    proof {
        assert(snapshot.clients@.subrange(
            snapshot.clients@.len() as int,
            snapshot.clients@.len() as int,
        ) =~= Seq::<SnapshotClient>::empty());
        assert(batch@ + Seq::<Seq<char>>::empty() =~= batch@);
    }
    batch
}


/// The scan state after considering the first `i` snapshot candidates
/// for one live client: the best unused candidate with its score, and
/// the highest distinct runner-up score seen.
pub open spec fn spec_scan_candidates(
    snapshot_clients: Seq<SnapshotClient>,
    used: Seq<bool>,
    client: ClientInfo,
    i: nat,
) -> (Option<(int, int)>, int)
    decreases i,
{
    if i == 0 {
        (None, 0)
    } else {
        let prev = spec_scan_candidates(snapshot_clients, used, client, (i - 1) as nat);
        let idx = i - 1;
        let score = spec_match_score(snapshot_clients[idx as int], client);
        if used[idx as int] || score == 0 {
            prev
        } else {
            match prev.0 {
                None => (Some((idx as int, score)), prev.1),
                Some(best) => if score > best.1 {
                    (Some((idx as int, score)), if prev.1 >= best.1 {
                        prev.1
                    } else {
                        best.1
                    })
                } else if score == best.1 {
                    (prev.0, best.1)
                } else if score > prev.1 {
                    (prev.0, score)
                } else {
                    prev
                },
            }
        }
    }
}

/// Whether a scan result accepts its best candidate: a score of at least
/// four that strictly beats the runner-up.
pub open spec fn spec_scan_accepts(scan: (Option<(int, int)>, int)) -> bool {
    match scan.0 {
        Some(best) => best.1 >= 4 && best.1 > scan.1,
        None => false,
    }
}

/// The greedy matching state after the first `j` live clients: which
/// snapshot candidates are used up, the addresses already matched, and
/// the move commands emitted so far, in live-client order.
pub open spec fn spec_cold_pass(
    snapshot_clients: Seq<SnapshotClient>,
    current: Seq<ClientInfo>,
    j: nat,
) -> (Seq<bool>, Seq<Seq<char>>, Seq<Seq<char>>)
    decreases j,
{
    if j == 0 {
        (Seq::new(snapshot_clients.len(), |k: int| false), Seq::empty(), Seq::empty())
    } else {
        let prev = spec_cold_pass(snapshot_clients, current, (j - 1) as nat);
        let client = current[j - 1];
        let scan = spec_scan_candidates(snapshot_clients, prev.0, client, snapshot_clients.len());
        if spec_scan_accepts(scan) {
            let idx = scan.0->Some_0.0;
            let snapshot = snapshot_clients[idx];
            let moves = if client.workspace.id != snapshot.workspace_id {
                seq![
                    crate::hyprctl::spec_dispatch_cmd(
                        "movetoworkspacesilent"@,
                        crate::hyprctl::spec_move_target_arg(
                            spec_workspace_target(snapshot),
                            client.address@,
                        ),
                    ),
                ]
            } else {
                Seq::empty()
            };
            (prev.0.update(idx, true), prev.1.push(client.address@), prev.2 + moves)
        } else {
            prev
        }
    }
}

/// The fallback commands after matching: every live client left
/// unmatched and not on a special workspace is re-normalized to its
/// pairing slot, in live-client order.
pub open spec fn spec_cold_fallback(
    current: Seq<ClientInfo>,
    matched: Seq<Seq<char>>,
    offset: int,
    j: nat,
) -> Seq<Seq<char>>
    decreases j,
{
    if j == 0 {
        Seq::empty()
    } else {
        let prev = spec_cold_fallback(current, matched, offset, (j - 1) as nat);
        let client = current[j - 1];
        if !matched.contains(client.address@) && !spec_is_special(client.workspace.name)
            && client.workspace.id >= 1 && spec_normalize(client.workspace.id as int, offset)
            != client.workspace.id {
            prev + seq![
                crate::hyprctl::spec_dispatch_cmd(
                    "movetoworkspacesilent"@,
                    crate::hyprctl::spec_move_silent_arg(
                        spec_normalize(client.workspace.id as int, offset),
                        client.address@,
                    ),
                ),
            ]
        } else {
            prev
        }
    }
}

/// The whole cold-restore command list: the greedy matching moves, then
/// the fallback normalization moves.
pub open spec fn spec_cold_session_cmds(
    snapshot_clients: Seq<SnapshotClient>,
    current: Seq<ClientInfo>,
    offset: int,
) -> Seq<Seq<char>> {
    let pass = spec_cold_pass(snapshot_clients, current, current.len());
    pass.2 + spec_cold_fallback(current, pass.1, offset, current.len())
}

/// Whether `address` occurs in the matched list.
fn address_matched(matched: &Vec<String>, address: &str) -> (r: bool)
    ensures
        r == spec_string_views(matched@).contains(address@),
{
    let mut i: usize = 0;
    while i < matched.len()
        invariant
            i <= matched@.len(),
            forall|k: int| 0 <= k < i ==> spec_string_views(matched@)[k] != address@,
        decreases matched@.len() - i,
    {
        if str_eq(matched[i].as_str(), address) {
            assert(spec_string_views(matched@)[i as int] == address@);
            return true;
        }
        i = i + 1;
    }
    assert(forall|k: int| 0 <= k < matched@.len() ==> spec_string_views(matched@)[k] != address@);
    false
}

/// The view of an execution-side scan result.
pub open spec fn spec_best_view(best: Option<(usize, u8)>) -> Option<(int, int)> {
    match best {
        Some(pair) => Some((pair.0 as int, pair.1 as int)),
        None => None,
    }
}

/// Matches every live client against the unused snapshot candidates by
/// weighted identity score, accepting only an unambiguous winner; moves
/// accepted mismatches to their recorded placement and re-normalizes
/// every unmatched ordinary client to its pairing slot.
pub fn restore_cold_session(
    snapshot: &SessionSnapshot,
    current_clients: &[ClientInfo],
    config: &Config,
) -> (r: crate::hyprctl::HyprctlBatch)
    requires
        config.wf(),
    ensures
        r@ == spec_cold_session_cmds(
            snapshot.clients@,
            current_clients@,
            config.paired_offset as int,
        ),
{
    let snapshot_len = snapshot.clients.len();
    let current_len = current_clients.len();
    let mut batch = crate::hyprctl::HyprctlBatch::new();
    let mut used: Vec<bool> = Vec::new();
    let mut matched: Vec<String> = Vec::new();

    while used.len() < snapshot_len
        invariant
            used@.len() <= snapshot_len == snapshot.clients@.len(),
            forall|k: int| 0 <= k < used@.len() ==> !(#[trigger] used@[k]),
        decreases snapshot_len - used@.len(),
    {
        used.push(false);
    }
    proof {
        assert(used@ =~= Seq::new(snapshot.clients@.len(), |k: int| false));
        assert(spec_string_views(matched@) =~= Seq::<Seq<char>>::empty());
    }

    let mut j: usize = 0;
    while j < current_len
        invariant
            config.wf(),
            j <= current_len == current_clients@.len(),
            snapshot_len == snapshot.clients@.len(),
            used@.len() == snapshot_len,
            ({
                let pass = spec_cold_pass(snapshot.clients@, current_clients@, j as nat);
                used@ == pass.0 && spec_string_views(matched@) == pass.1 && batch@ == pass.2
            }),
        decreases current_len - j,
    {
        let client = vstd::slice::slice_index_get(current_clients, j);
        let mut best: Option<(usize, u8)> = None;
        let mut second_best: u8 = 0;
        let mut k: usize = 0;
        while k < snapshot_len
            invariant
                k <= snapshot_len == snapshot.clients@.len(),
                used@.len() == snapshot_len,
                client == &current_clients@[j as int],
                j < current_clients@.len(),
                (spec_best_view(best), second_best as int) == spec_scan_candidates(
                    snapshot.clients@,
                    used@,
                    current_clients@[j as int],
                    k as nat,
                ),
                match best {
                    Some(pair) => pair.0 < k && pair.1 <= 10,
                    None => true,
                },
                second_best <= 10,
            decreases snapshot_len - k,
        {
            let score = match_score(&snapshot.clients[k], client);
            if !used[k] && score != 0 {
                match best {
                    None => { best = Some((k, score)); },
                    Some(pair) => {
                        let best_score = pair.1;
                        if score > best_score {
                            if best_score > second_best {
                                second_best = best_score;
                            }
                            best = Some((k, score));
                        } else if score == best_score {
                            second_best = best_score;
                        } else if score > second_best {
                            second_best = score;
                        }
                    },
                }
            }
            k = k + 1;
        }

        let accept = match best {
            Some(pair) => pair.1 >= 4 && pair.1 > second_best,
            None => false,
        };
        if accept {
            let pair = match best {
                Some(pair) => pair,
                None => { (0, 0) },
            };
            let idx = pair.0;
            let snapshot_client = &snapshot.clients[idx];
            if client.workspace.id != snapshot_client.workspace_id {
                let target = workspace_target(snapshot_client);
                let argument = crate::hyprctl::move_target_arg(
                    target.as_str(),
                    client.address.as_str(),
                );
                batch.dispatch("movetoworkspacesilent", argument.as_str());
            }
            used.set(idx, true);
            matched.push(client.address.clone());
            proof {
                assert(spec_string_views(matched@) =~= spec_string_views(
                    matched@.drop_last(),
                ).push(current_clients@[j as int].address@));
            }
        }
        j = j + 1;
        proof {
            let pass = spec_cold_pass(snapshot.clients@, current_clients@, j as nat);
            assert(used@ =~= pass.0);
            assert(spec_string_views(matched@) =~= pass.1);
            assert(batch@ =~= pass.2);
        }
    }

    let ghost pass = spec_cold_pass(snapshot.clients@, current_clients@, current_clients@.len());
    let ghost match_cmds = batch@;

    let mut j: usize = 0;
    while j < current_len
        invariant
            config.wf(),
            j <= current_len == current_clients@.len(),
            spec_string_views(matched@) == pass.1,
            batch@ == match_cmds + spec_cold_fallback(
                current_clients@,
                pass.1,
                config.paired_offset as int,
                j as nat,
            ),
        decreases current_len - j,
    {
        let client = vstd::slice::slice_index_get(current_clients, j);
        if !address_matched(&matched, client.address.as_str())
            && !is_special_workspace_name(&client.workspace.name) && client.workspace.id >= 1 {
            let paired_slot = normalize_workspace(client.workspace.id, config.paired_offset);
            if paired_slot != client.workspace.id {
                let argument = crate::hyprctl::move_silent_arg(
                    paired_slot,
                    client.address.as_str(),
                );
                batch.dispatch("movetoworkspacesilent", argument.as_str());
            }
        }
        j = j + 1;
        proof {
            assert(batch@ =~= match_cmds + spec_cold_fallback(
                current_clients@,
                pass.1,
                config.paired_offset as int,
                j as nat,
            ));
        }
    }

    batch
}

/// The restore command list for a snapshot under a resolved mode: the
/// same-session moves, the cold-restore moves, or nothing when `Auto`
/// somehow stands unresolved.
pub open spec fn spec_restore_cmds(
    snapshot: SessionSnapshot,
    mode: RestoreMode,
    current_signature: Option<Seq<char>>,
    current: Seq<ClientInfo>,
    offset: int,
) -> Seq<Seq<char>> {
    let snapshot_signature = match snapshot.signature {
        Some(s) => Some(s@),
        None => None,
    };
    match spec_resolve_restore_mode(mode, snapshot_signature, current_signature) {
        RestoreMode::Same => spec_same_session_cmds(snapshot.clients@, current),
        RestoreMode::Cold => spec_cold_session_cmds(snapshot.clients@, current, offset),
        RestoreMode::Auto => Seq::empty(),
    }
}

/// Computes the batch of silent moves that restores the snapshot's
/// placement: by address under the same runtime signature, by identity
/// matching otherwise.  An empty batch means nothing needs correcting.
pub fn restore_batch(
    snapshot: &SessionSnapshot,
    mode: RestoreMode,
    current_signature: Option<&str>,
    current_clients: &[ClientInfo],
    config: &Config,
) -> (r: crate::hyprctl::HyprctlBatch)
    requires
        config.wf(),
    ensures
        r@ == spec_restore_cmds(
            *snapshot,
            mode,
            spec_opt_str_view(current_signature),
            current_clients@,
            config.paired_offset as int,
        ),
{
    let snapshot_signature: Option<&str> = match &snapshot.signature {
        Some(s) => Some(s.as_str()),
        None => None,
    };
    let resolved = resolve_restore_mode(mode, snapshot_signature, current_signature);

    match resolved {
        RestoreMode::Same => restore_same_session(snapshot, current_clients),
        RestoreMode::Cold => restore_cold_session(snapshot, current_clients, config),
        RestoreMode::Auto => crate::hyprctl::HyprctlBatch::new(),
    }
}

} // verus!
