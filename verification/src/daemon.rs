//! The event-driven daemon core: classifying compositor notification
//! lines into domain events, rate-limiting corrective actions with two
//! debounce state machines, and driving the dispatcher.
//!
//! Times are instants on a monotonic clock, in milliseconds; the caller
//! passes the current instant into every decision function.
use vstd::prelude::*;
use vstd::string::StrSliceExecFns;
use vstd::string::StringExecFns;

use crate::config::Config;
use crate::hyprctl::{
    paired_switch_batch, rebalance_batch, spec_rebalance_batch, ClientInfo, HyprctlError,
    HyprlandIpc,
};
use crate::paired::{normalize_workspace, spec_normalize};
use crate::strutil::{
    find_char, find_sep, lemma_split_char_at, lemma_split_char_none, lemma_split_line_at,
    lemma_split_line_none, parse_u32, spec_parse_u32, spec_split_char, spec_split_line, spec_trim,
    str_eq, trim,
};

verus! {

pub const DEFAULT_REBALANCE_DEBOUNCE: u64 = 200;

pub const DEFAULT_FOCUS_SWITCH_DEBOUNCE: u64 = 100;

/// Whether a monitor appeared or disappeared.
#[derive(Debug, Clone, Copy, PartialEq, Eq, Structural)]
pub enum MonitorEventKind {
    Added,
    Removed,
}

/// A focus change: at most one of the workspace id and the window address
/// is known, depending on which notification carried it.
#[derive(Debug, Clone)]
pub struct FocusEvent {
    pub at: u64,
    pub workspace_id: Option<u32>,
    pub window_address: Option<String>,
}

/// A classified domain event from the notification stream.
pub enum DaemonEvent {
    Focus(FocusEvent),
    Monitor { kind: MonitorEventKind, at: u64 },
    Timeout { at: u64 },
    Disconnected,
}

/// Which producer feeds the daemon loop: the socket line stream or the
/// native push binding.
pub enum EventSourceKind {
    Socket2,
    Native,
}

/// A producer of classified events; implementors block with a bounded
/// wait and report `Timeout` when no event arrives in the window, and
/// `Disconnected` when the stream closes.
pub trait EventSource {
    fn next_event(&mut self) -> Result<DaemonEvent, std::io::Error>;
}

/// The monotonic time elapsed from `last` to `now`, saturating at zero.
pub open spec fn spec_elapsed(now: u64, last: u64) -> int {
    if now >= last {
        now - last
    } else {
        0
    }
}

/// Coalesces bursts of rebalance triggers: the leading edge runs at once,
/// later triggers inside the interval are deferred, and a deferred run
/// fires only after the burst has gone quiet.
pub struct RebalanceDebounce {
    pub min_interval: u64,
    pub last_rebalance: Option<u64>,
    pub last_event: Option<u64>,
    pub pending: bool,
}

/// Whether a rebalance may run at `now`: no rebalance ran yet, or the
/// minimum interval has passed since the last one.
pub open spec fn spec_should_run_now(s: RebalanceDebounce, now: u64) -> bool {
    match s.last_rebalance {
        None => true,
        Some(last) => spec_elapsed(now, last) >= s.min_interval,
    }
}

/// The state after recording a trigger at `now`, and whether the
/// rebalance runs immediately.
pub open spec fn spec_record_event(s: RebalanceDebounce, now: u64) -> (RebalanceDebounce, bool) {
    if spec_should_run_now(s, now) {
        (
            RebalanceDebounce {
                last_event: Some(now),
                last_rebalance: Some(now),
                pending: false,
                ..s
            },
            true,
        )
    } else {
        (RebalanceDebounce { last_event: Some(now), pending: true, ..s }, false)
    }
}

/// The state after a flush attempt at `now`, and whether the deferred
/// rebalance fires: only with a pending run, a quiet period of at least
/// the interval since the last trigger, and the run-now condition.
pub open spec fn spec_flush(s: RebalanceDebounce, now: u64) -> (RebalanceDebounce, bool) {
    let fires = s.pending && match s.last_event {
        Some(last_event) => spec_elapsed(now, last_event) >= s.min_interval,
        None => false,
    } && spec_should_run_now(s, now);
    if fires {
        (RebalanceDebounce { last_rebalance: Some(now), pending: false, ..s }, true)
    } else {
        (s, false)
    }
}

impl RebalanceDebounce {
    /// A fresh controller: nothing has run and nothing is pending.
    pub fn new(min_interval: u64) -> (r: RebalanceDebounce)
        ensures
            r == (RebalanceDebounce {
                min_interval,
                last_rebalance: None,
                last_event: None,
                pending: false,
            }),
    {
        RebalanceDebounce { min_interval, last_rebalance: None, last_event: None, pending: false }
    }

    /// Whether a rebalance may run at `now`.
    pub fn should_run_now(&self, now: u64) -> (r: bool)
        ensures
            r == spec_should_run_now(*self, now),
    {
        match self.last_rebalance {
            None => true,
            Some(last) => {
                let elapsed: u64 = if now >= last {
                    now - last
                } else {
                    0
                };
                elapsed >= self.min_interval
            },
        }
    }

    /// Records a trigger at `now`; returns whether to run immediately.
    /// A deferred trigger marks the controller pending.
    pub fn record_event(&mut self, now: u64) -> (r: bool)
        ensures
            (*final(self), r) === spec_record_event(*old(self), now),
    {
        self.last_event = Some(now);
        if self.should_run_now(now) {
            self.last_rebalance = Some(now);
            self.pending = false;
            true
        } else {
            self.pending = true;
            false
        }
    }

    /// Attempts to fire a deferred rebalance at `now`; returns whether it
    /// fires.  A flush without a pending run, or before the burst has
    /// gone quiet, changes nothing.
    pub fn flush(&mut self, now: u64) -> (r: bool)
        ensures
            (*final(self), r) === spec_flush(*old(self), now),
    {
        if !self.pending {
            return false;
        }
        let last_event = match self.last_event {
            Some(last_event) => last_event,
            None => { return false; },
        };
        let since_event: u64 = if now >= last_event {
            now - last_event
        } else {
            0
        };
        if since_event < self.min_interval {
            return false;
        }
        if !self.should_run_now(now) {
            return false;
        }
        self.pending = false;
        self.last_rebalance = Some(now);
        true
    }
}

/// A burst of rebalance triggers is coalesced: from a fresh controller,
/// the first trigger runs at once; a second trigger within the interval
/// is deferred and marked pending; flushing before the quiet period
/// elapses changes nothing; and a flush after both the quiet period and
/// the interval have passed fires exactly once, clearing the pending
/// mark so an identical flush right after does not fire again.
pub proof fn lemma_rebalance_debounce_coalesces(interval: u64, t0: u64, t1: u64, t2: u64, t3: u64)
    requires
        interval >= 1,
        t0 <= t1 <= t2 <= t3,
        t1 - t0 < interval,
        t2 - t1 < interval,
        t3 - t1 >= interval,
        t3 - t0 >= interval,
    ensures
        ({
            let s0 = RebalanceDebounce {
                min_interval: interval,
                last_rebalance: None,
                last_event: None,
                pending: false,
            };
            let (s1, first_runs) = spec_record_event(s0, t0);
            let (s2, second_runs) = spec_record_event(s1, t1);
            let (s3, early_fires) = spec_flush(s2, t2);
            let (s4, late_fires) = spec_flush(s3, t3);
            let (_, repeat_fires) = spec_flush(s4, t3);
            first_runs && !second_runs && s2.pending && !early_fires && s3 === s2 && late_fires
                && !s4.pending && !repeat_fires
        }),
{
}

/// Suppresses repeated switches to the same target workspace in quick
/// succession while always allowing a change of target.
pub struct FocusSwitchDebounce {
    pub min_interval: u64,
    pub last_switch: Option<u64>,
    pub last_workspace: Option<u32>,
}

/// Whether the same target workspace was already switched to within the
/// minimum interval.
pub open spec fn spec_recent_same_workspace(s: FocusSwitchDebounce, now: u64, workspace: u32) -> bool {
    match (s.last_switch, s.last_workspace) {
        (Some(last_switch), Some(last_workspace)) => last_workspace == workspace && spec_elapsed(
            now,
            last_switch,
        ) < s.min_interval,
        _ => false,
    }
}

/// The state after a switch decision at `now`, and whether the switch
/// proceeds: rejected only when the same target was switched to within
/// the interval; an allowed switch records time and target.
pub open spec fn spec_should_switch(s: FocusSwitchDebounce, now: u64, workspace: u32) -> (
    FocusSwitchDebounce,
    bool,
) {
    if spec_recent_same_workspace(s, now, workspace) {
        (s, false)
    } else {
        (
            FocusSwitchDebounce {
                last_switch: Some(now),
                last_workspace: Some(workspace),
                ..s
            },
            true,
        )
    }
}

impl FocusSwitchDebounce {
    /// A fresh controller with no switch recorded.
    pub fn new(min_interval: u64) -> (r: FocusSwitchDebounce)
        ensures
            r == (FocusSwitchDebounce { min_interval, last_switch: None, last_workspace: None }),
    {
        FocusSwitchDebounce { min_interval, last_switch: None, last_workspace: None }
    }

    /// Decides whether to switch to `workspace` at `now`, recording the
    /// switch when allowed.
    pub fn should_switch(&mut self, now: u64, workspace: u32) -> (r: bool)
        ensures
            (*final(self), r) === spec_should_switch(*old(self), now, workspace),
    {
        let recent_same_workspace = match (self.last_switch, self.last_workspace) {
            (Some(last_switch), Some(last_workspace)) => {
                if last_workspace == workspace {
                    let elapsed: u64 = if now >= last_switch {
                        now - last_switch
                    } else {
                        0
                    };
                    elapsed < self.min_interval
                } else {
                    false
                }
            },
            _ => false,
        };
        if recent_same_workspace {
            return false;
        }
        self.last_switch = Some(now);
        self.last_workspace = Some(workspace);
        true
    }
}

/// Switching to workspace `w` twice within the interval allows only the
/// first switch, while switching to `w` and then to a different target
/// `v` within the same window allows both.
pub proof fn lemma_focus_debounce_targets(interval: u64, t0: u64, t1: u64, w: u32, v: u32)
    requires
        interval >= 1,
        t0 <= t1,
        t1 - t0 < interval,
        w != v,
    ensures
        ({
            let s0 = FocusSwitchDebounce {
                min_interval: interval,
                last_switch: None,
                last_workspace: None,
            };
            let (s1, first_allowed) = spec_should_switch(s0, t0, w);
            let (_, repeat_allowed) = spec_should_switch(s1, t1, w);
            let (_, change_allowed) = spec_should_switch(s1, t1, v);
            first_allowed && !repeat_allowed && change_allowed
        }),
{
}

/// The notification socket path for one compositor instance under the
/// runtime directory.
pub fn socket2_path(runtime_dir: &str, instance_signature: &str) -> (r: String)
    ensures
        r@ == runtime_dir@ + "/hypr/"@ + instance_signature@ + "/.socket2.sock"@,
{
    let mut path = String::from_str(runtime_dir);
    path.append("/hypr/");
    path.append(instance_signature);
    path.append("/.socket2.sock");
    path
}

/// The payload's first comma-separated field parsed as a workspace id.
pub open spec fn spec_first_field(payload: Seq<char>) -> Option<u32> {
    match spec_split_char(payload, ',') {
        Some(parts) => spec_parse_u32(parts.0),
        None => None,
    }
}

/// The payload's second comma-separated part parsed as a workspace id.
pub open spec fn spec_second_field(payload: Seq<char>) -> Option<u32> {
    match spec_split_char(payload, ',') {
        Some(parts) => spec_parse_u32(parts.1),
        None => None,
    }
}

/// What one notification line means, before a timestamp is attached: a
/// monitor-topology change, a focus change carrying a workspace id, a
/// focus change carrying only a window address, or noise to ignore.
pub enum EventShape {
    Monitor { kind: MonitorEventKind },
    FocusWorkspace { workspace_id: u32 },
    FocusWindow { address: Seq<char> },
    Ignored,
}

/// Classifies one raw notification line.  Unknown names, missing
/// separators and unparseable payload fields are all `Ignored`: expected
/// noise, not errors.
pub open spec fn spec_classify_line(line: Seq<char>) -> EventShape {
    match spec_split_line(line) {
        None => EventShape::Ignored,
        Some(parts) => {
            let name = parts.0;
            let payload = parts.1;
            if name == "monitoradded"@ || name == "monitoraddedv2"@ {
                EventShape::Monitor { kind: MonitorEventKind::Added }
            } else if name == "monitorremoved"@ || name == "monitorremovedv2"@ {
                EventShape::Monitor { kind: MonitorEventKind::Removed }
            } else if name == "workspacev2"@ {
                match spec_first_field(payload) {
                    Some(workspace_id) => EventShape::FocusWorkspace { workspace_id },
                    None => EventShape::Ignored,
                }
            } else if name == "workspace"@ {
                match spec_parse_u32(payload) {
                    Some(workspace_id) => EventShape::FocusWorkspace { workspace_id },
                    None => EventShape::Ignored,
                }
            } else if name == "focusedmonv2"@ || name == "focusedmon"@ {
                match spec_second_field(payload) {
                    Some(workspace_id) => EventShape::FocusWorkspace { workspace_id },
                    None => EventShape::Ignored,
                }
            } else if name == "activewindowv2"@ {
                if spec_trim(payload).len() > 0 {
                    EventShape::FocusWindow { address: spec_trim(payload) }
                } else {
                    EventShape::Ignored
                }
            } else {
                EventShape::Ignored
            }
        },
    }
}

/// The event name of a raw line: everything before the first `>>`, or the
/// whole line when no separator occurs.
pub fn event_name<'a>(line: &'a str) -> (r: &'a str)
    ensures
        r@ == match spec_split_line(line@) {
            Some(parts) => parts.0,
            None => line@,
        },
{
    match find_sep(line) {
        Some(i) => {
            proof {
                lemma_split_line_at(line@, i as int);
            }
            line.substring_char(0, i)
        },
        None => {
            proof {
                lemma_split_line_none(line@);
            }
            line
        },
    }
}

/// Splits `payload` at its first comma.
fn split_comma<'a>(payload: &'a str) -> (r: Option<(&'a str, &'a str)>)
    ensures
        match r {
            Some(parts) => spec_split_char(payload@, ',') == Some((parts.0@, parts.1@)),
            None => spec_split_char(payload@, ',') is None,
        },
{
    match find_char(payload, ',') {
        Some(i) => {
            proof {
                lemma_split_char_at(payload@, ',', i as int);
            }
            let len = payload.unicode_len();
            Some((payload.substring_char(0, i), payload.substring_char(i + 1, len)))
        },
        None => {
            proof {
                lemma_split_char_none(payload@, ',');
            }
            None
        },
    }
}

/// Parses the payload's first comma-separated field as a workspace id.
fn parse_first_field(payload: &str) -> (r: Option<u32>)
    ensures
        r == spec_first_field(payload@),
{
    match split_comma(payload) {
        Some(parts) => parse_u32(parts.0),
        None => None,
    }
}

/// Parses the payload's second comma-separated part as a workspace id.
fn parse_second_field(payload: &str) -> (r: Option<u32>)
    ensures
        r == spec_second_field(payload@),
{
    match split_comma(payload) {
        Some(parts) => parse_u32(parts.1),
        None => None,
    }
}

/// Classifies one notification line into a domain event stamped with
/// `at`.  `None` is the silent outcome for noise lines.
pub fn parse_socket2_event(line: &str, at: u64) -> (r: Option<DaemonEvent>)
    ensures
        match r {
            None => spec_classify_line(line@) is Ignored,
            Some(DaemonEvent::Monitor { kind, at: t }) => t == at && spec_classify_line(line@)
                == (EventShape::Monitor { kind }),
            Some(DaemonEvent::Focus(focus)) => focus.at == at && match (
                focus.workspace_id,
                focus.window_address,
            ) {
                (Some(workspace_id), None) => spec_classify_line(line@) == (
                EventShape::FocusWorkspace { workspace_id }),
                (None, Some(address)) => spec_classify_line(line@) == (EventShape::FocusWindow {
                    address: address@,
                }),
                _ => false,
            },
            Some(_) => false,
        },
{
    let sep = match find_sep(line) {
        Some(i) => i,
        None => {
            proof {
                lemma_split_line_none(line@);
            }
            return None;
        },
    };
    proof {
        lemma_split_line_at(line@, sep as int);
    }
    let len = line.unicode_len();
    let name = line.substring_char(0, sep);
    let payload = line.substring_char(sep + 2, len);

    if str_eq(name, "monitoradded") || str_eq(name, "monitoraddedv2") {
        Some(DaemonEvent::Monitor { kind: MonitorEventKind::Added, at })
    } else if str_eq(name, "monitorremoved") || str_eq(name, "monitorremovedv2") {
        Some(DaemonEvent::Monitor { kind: MonitorEventKind::Removed, at })
    } else if str_eq(name, "workspacev2") {
        match parse_first_field(payload) {
            Some(workspace_id) => Some(
                DaemonEvent::Focus(
                    FocusEvent { at, workspace_id: Some(workspace_id), window_address: None },
                ),
            ),
            None => None,
        }
    } else if str_eq(name, "workspace") {
        match parse_u32(payload) {
            Some(workspace_id) => Some(
                DaemonEvent::Focus(
                    FocusEvent { at, workspace_id: Some(workspace_id), window_address: None },
                ),
            ),
            None => None,
        }
    } else if str_eq(name, "focusedmonv2") || str_eq(name, "focusedmon") {
        match parse_second_field(payload) {
            Some(workspace_id) => Some(
                DaemonEvent::Focus(
                    FocusEvent { at, workspace_id: Some(workspace_id), window_address: None },
                ),
            ),
            None => None,
        }
    } else if str_eq(name, "activewindowv2") {
        let address = trim(payload);
        if address.as_str().is_empty() {
            None
        } else {
            Some(
                DaemonEvent::Focus(
                    FocusEvent { at, workspace_id: None, window_address: Some(address) },
                ),
            )
        }
    } else {
        None
    }
}

/// Whether a raw line is a monitor-topology change, the trigger for a
/// rebalance.
pub fn should_rebalance(line: &str) -> (r: bool)
    ensures
        r == (spec_classify_line(line@) is Monitor),
{
    match parse_socket2_event(line, 0) {
        Some(DaemonEvent::Monitor { .. }) => true,
        _ => false,
    }
}

/// Relies on `std::time::SystemTime::now`: the current wall-clock time in
/// milliseconds since the epoch, used only to feed the debounce
/// controllers; nothing is assumed of the value.
#[verifier::external_body]
fn now_millis() -> u64 {
    match std::time::SystemTime::now().duration_since(std::time::UNIX_EPOCH) {
        Ok(elapsed) => elapsed.as_millis() as u64,
        Err(_) => 0,
    }
}

/// The rebalance batch for a raw line, built only when the line is a
/// monitor-topology change.
pub fn rebalance_batch_for_event(primary: &str, secondary: &str, offset: u32, line: &str) -> (r:
    Option<String>)
    requires
        offset <= 0x7fff_ffff,
    ensures
        match r {
            Some(batch) => spec_classify_line(line@) is Monitor && batch@ == spec_rebalance_batch(
                primary@,
                secondary@,
                offset as int,
            ),
            None => !(spec_classify_line(line@) is Monitor),
        },
{
    match parse_socket2_event(line, 0) {
        Some(DaemonEvent::Monitor { .. }) => Some(rebalance_batch(primary, secondary, offset)),
        _ => None,
    }
}

/// Sends the full rebalance batch unconditionally.
pub fn rebalance_all<I: HyprlandIpc + ?Sized>(hyprctl: &I, config: &Config) -> (r: Result<
    (),
    HyprctlError,
>)
    requires
        config.wf(),
{
    let batch = rebalance_batch(
        config.primary_monitor.as_str(),
        config.secondary_monitor.as_str(),
        config.paired_offset,
    );
    match hyprctl.batch(batch.as_str()) {
        Ok(_) => Ok(()),
        Err(e) => Err(e),
    }
}

/// Rebalances immediately when the line is a monitor-topology change;
/// reports whether a rebalance was attempted.
pub fn rebalance_for_event<I: HyprlandIpc + ?Sized>(hyprctl: &I, config: &Config, line: &str) -> (r:
    Result<bool, HyprctlError>)
    requires
        config.wf(),
    ensures
        match r {
            Ok(did_work) => did_work == (spec_classify_line(line@) is Monitor),
            Err(_) => spec_classify_line(line@) is Monitor,
        },
{
    match parse_socket2_event(line, 0) {
        Some(DaemonEvent::Monitor { .. }) => {},
        _ => { return Ok(false); },
    }
    let batch = rebalance_batch(
        config.primary_monitor.as_str(),
        config.secondary_monitor.as_str(),
        config.paired_offset,
    );
    match hyprctl.batch(batch.as_str()) {
        Ok(_) => Ok(true),
        Err(e) => Err(e),
    }
}

/// Feeds a monitor event into the rebalance debounce at `now` and sends
/// the rebalance batch when the controller says to run.  The controller
/// records the trigger whether or not the batch then succeeds.
pub fn rebalance_for_event_at<I: HyprlandIpc + ?Sized>(
    hyprctl: &I,
    config: &Config,
    kind: MonitorEventKind,
    debounce: &mut RebalanceDebounce,
    now: u64,
) -> (r: Result<bool, HyprctlError>)
    requires
        config.wf(),
    ensures
        *final(debounce) == spec_record_event(*old(debounce), now).0,
        match r {
            Ok(did_work) => did_work == spec_record_event(*old(debounce), now).1,
            Err(_) => spec_record_event(*old(debounce), now).1,
        },
{
    let batch = match kind {
        MonitorEventKind::Added | MonitorEventKind::Removed => rebalance_batch(
            config.primary_monitor.as_str(),
            config.secondary_monitor.as_str(),
            config.paired_offset,
        ),
    };
    if debounce.record_event(now) {
        match hyprctl.batch(batch.as_str()) {
            Ok(_) => Ok(true),
            Err(e) => Err(e),
        }
    } else {
        Ok(false)
    }
}

/// Fires a deferred rebalance at `now` when the burst has gone quiet;
/// reports whether the batch was attempted.
pub fn flush_pending_rebalance_at<I: HyprlandIpc + ?Sized>(
    hyprctl: &I,
    config: &Config,
    debounce: &mut RebalanceDebounce,
    now: u64,
) -> (r: Result<bool, HyprctlError>)
    requires
        config.wf(),
    ensures
        *final(debounce) == spec_flush(*old(debounce), now).0,
        match r {
            Ok(did_work) => did_work == spec_flush(*old(debounce), now).1,
            Err(_) => spec_flush(*old(debounce), now).1,
        },
{
    if debounce.flush(now) {
        let batch = rebalance_batch(
            config.primary_monitor.as_str(),
            config.secondary_monitor.as_str(),
            config.paired_offset,
        );
        match hyprctl.batch(batch.as_str()) {
            Ok(_) => Ok(true),
            Err(e) => Err(e),
        }
    } else {
        Ok(false)
    }
}

/// Rebalances for a monitor-change line through the debounce, stamping
/// the event with the current time.
pub fn rebalance_for_event_debounced<I: HyprlandIpc + ?Sized>(
    hyprctl: &I,
    config: &Config,
    line: &str,
    debounce: &mut RebalanceDebounce,
) -> (r: Result<bool, HyprctlError>)
    requires
        config.wf(),
    ensures
        spec_classify_line(line@) is Monitor ==> exists|now: u64|
            #![auto]
            *final(debounce) == spec_record_event(*old(debounce), now).0 && match r {
                Ok(did_work) => did_work == spec_record_event(*old(debounce), now).1,
                Err(_) => spec_record_event(*old(debounce), now).1,
            },
        !(spec_classify_line(line@) is Monitor) ==> *final(debounce) == *old(debounce) && match r {
            Ok(did_work) => !did_work,
            Err(_) => false,
        },
{
    let now = now_millis();
    let kind = match parse_socket2_event(line, now) {
        Some(DaemonEvent::Monitor { kind, .. }) => kind,
        _ => { return Ok(false); },
    };
    rebalance_for_event_at(hyprctl, config, kind, debounce, now)
}

/// Fires a deferred rebalance against the current time.
pub fn flush_pending_rebalance<I: HyprlandIpc + ?Sized>(
    hyprctl: &I,
    config: &Config,
    debounce: &mut RebalanceDebounce,
) -> (r: Result<bool, HyprctlError>)
    requires
        config.wf(),
    ensures
        exists|now: u64|
            #![auto]
            *final(debounce) == spec_flush(*old(debounce), now).0 && match r {
                Ok(did_work) => did_work == spec_flush(*old(debounce), now).1,
                Err(_) => spec_flush(*old(debounce), now).1,
            },
{
    let now = now_millis();
    flush_pending_rebalance_at(hyprctl, config, debounce, now)
}

/// The workspace id of the first live client at `address`.
pub open spec fn spec_client_workspace(clients: Seq<ClientInfo>, address: Seq<char>) -> Option<u32>
    decreases clients.len(),
{
    if clients.len() == 0 {
        None
    } else if clients[0].address@ == address {
        Some(clients[0].workspace.id)
    } else {
        spec_client_workspace(clients.drop_first(), address)
    }
}

/// Looks up the workspace that hosts the client at `address`.
pub fn client_workspace_for_address(clients: &Vec<ClientInfo>, address: &str) -> (r: Option<u32>)
    ensures
        r == spec_client_workspace(clients@, address@),
{
    let mut i: usize = 0;
    proof {
        assert(clients@.subrange(0, clients@.len() as int) =~= clients@);
    }
    while i < clients.len()
        invariant
            i <= clients@.len(),
            spec_client_workspace(clients@, address@) == spec_client_workspace(
                clients@.subrange(i as int, clients@.len() as int),
                address@,
            ),
        decreases clients@.len() - i,
    {
        proof {
            let rest = clients@.subrange(i as int, clients@.len() as int);
            assert(rest[0] == clients@[i as int]);
            assert(rest.drop_first() =~= clients@.subrange(i as int + 1, clients@.len() as int));
        }
        if str_eq(clients[i].address.as_str(), address) {
            return Some(clients[i].workspace.id);
        }
        i = i + 1;
    }
    proof {
        assert(clients@.subrange(clients@.len() as int, clients@.len() as int)
            =~= Seq::<ClientInfo>::empty());
    }
    None
}

/// What one focus decision does, given the workspace id the event
/// resolved to (`None` when no usable id was found): with a positive id
/// the focus debounce steps on the normalized slot and the paired-switch
/// batch is attempted exactly when the step allows it; otherwise nothing
/// changes and no work is reported.
pub open spec fn spec_focus_switch_outcome(
    s_old: FocusSwitchDebounce,
    s_new: FocusSwitchDebounce,
    at: u64,
    offset: int,
    resolved: Option<u32>,
    r: Result<bool, HyprctlError>,
) -> bool {
    match resolved {
        Some(workspace_id) => if workspace_id >= 1 {
            let step = spec_should_switch(
                s_old,
                at,
                spec_normalize(workspace_id as int, offset) as u32,
            );
            s_new == step.0 && match r {
                Ok(did_work) => did_work == step.1,
                Err(_) => step.1,
            }
        } else {
            s_new == s_old && match r {
                Ok(did_work) => !did_work,
                Err(_) => false,
            }
        },
        None => s_new == s_old && match r {
            Ok(did_work) => !did_work,
            Err(_) => false,
        },
    }
}

/// Handles one focus event: resolves the workspace (looking the window
/// address up among the live clients when needed), asks the focus
/// debounce, and sends the paired-switch batch when allowed.
pub fn focus_switch_for_focus_event_at<I: HyprlandIpc + ?Sized>(
    hyprctl: &I,
    config: &Config,
    focus: &FocusEvent,
    debounce: &mut FocusSwitchDebounce,
) -> (r: Result<bool, HyprctlError>)
    requires
        config.wf(),
    ensures
        match focus.workspace_id {
            Some(_) => spec_focus_switch_outcome(
                *old(debounce),
                *final(debounce),
                focus.at,
                config.paired_offset as int,
                focus.workspace_id,
                r,
            ),
            None => match focus.window_address {
                Some(_) => (*final(debounce) == *old(debounce) && r is Err) || exists|
                    resolved: Option<u32>,
                |
                    #![auto]
                    spec_focus_switch_outcome(
                        *old(debounce),
                        *final(debounce),
                        focus.at,
                        config.paired_offset as int,
                        resolved,
                        r,
                    ),
                None => *final(debounce) == *old(debounce) && match r {
                    Ok(did_work) => !did_work,
                    Err(_) => false,
                },
            },
        },
{
    let resolved: Option<u32> = match focus.workspace_id {
        Some(workspace_id) => Some(workspace_id),
        None => match &focus.window_address {
            Some(address) => {
                let clients = match hyprctl.clients() {
                    Ok(clients) => clients,
                    Err(e) => { return Err(e); },
                };
                client_workspace_for_address(&clients, address.as_str())
            },
            None => None,
        },
    };
    let r = focus_switch_resolved(hyprctl, config, focus.at, resolved, debounce);
    proof {
        assert(spec_focus_switch_outcome(
            *old(debounce),
            *debounce,
            focus.at,
            config.paired_offset as int,
            resolved,
            r,
        ));
    }
    r
}

/// Applies one focus decision for an already-resolved workspace id: with
/// a positive id the focus debounce steps on its normalized slot and the
/// paired-switch batch is sent exactly when the step allows it; any other
/// resolution does nothing.
pub fn focus_switch_resolved<I: HyprlandIpc + ?Sized>(
    hyprctl: &I,
    config: &Config,
    at: u64,
    resolved: Option<u32>,
    debounce: &mut FocusSwitchDebounce,
) -> (r: Result<bool, HyprctlError>)
    requires
        config.wf(),
    ensures
        spec_focus_switch_outcome(
            *old(debounce),
            *final(debounce),
            at,
            config.paired_offset as int,
            resolved,
            r,
        ),
{
    let workspace_id = match resolved {
        Some(workspace_id) => if workspace_id >= 1 {
            workspace_id
        } else {
            return Ok(false);
        },
        None => { return Ok(false); },
    };
    let base_workspace = normalize_workspace(workspace_id, config.paired_offset);
    if !debounce.should_switch(at, base_workspace) {
        return Ok(false);
    }
    let batch = paired_switch_batch(
        config.primary_monitor.as_str(),
        config.secondary_monitor.as_str(),
        workspace_id,
        config.paired_offset,
    );
    match hyprctl.batch(batch.as_str()) {
        Ok(_) => Ok(true),
        Err(e) => Err(e),
    }
}

/// Handles a focus-change line at an explicit time: a non-focus line does
/// nothing.
pub fn focus_switch_for_event_at<I: HyprlandIpc + ?Sized>(
    hyprctl: &I,
    config: &Config,
    line: &str,
    debounce: &mut FocusSwitchDebounce,
    now: u64,
) -> (r: Result<bool, HyprctlError>)
    requires
        config.wf(),
    ensures
        match spec_classify_line(line@) {
            EventShape::FocusWorkspace { workspace_id } => spec_focus_switch_outcome(
                *old(debounce),
                *final(debounce),
                now,
                config.paired_offset as int,
                Some(workspace_id),
                r,
            ),
            EventShape::FocusWindow { .. } => (*final(debounce) == *old(debounce) && r is Err)
                || exists|resolved: Option<u32>|
                #![auto]
                spec_focus_switch_outcome(
                    *old(debounce),
                    *final(debounce),
                    now,
                    config.paired_offset as int,
                    resolved,
                    r,
                ),
            _ => *final(debounce) == *old(debounce) && match r {
                Ok(did_work) => !did_work,
                Err(_) => false,
            },
        },
{
    let focus = match parse_socket2_event(line, now) {
        Some(DaemonEvent::Focus(focus)) => focus,
        _ => { return Ok(false); },
    };
    focus_switch_for_focus_event_at(hyprctl, config, &focus, debounce)
}

/// Handles a focus-change line against the current time.
pub fn focus_switch_for_event<I: HyprlandIpc + ?Sized>(
    hyprctl: &I,
    config: &Config,
    line: &str,
    debounce: &mut FocusSwitchDebounce,
) -> (r: Result<bool, HyprctlError>)
    requires
        config.wf(),
    ensures
        (*final(debounce) == *old(debounce) && (r is Err || match r {
            Ok(did_work) => !did_work,
            Err(_) => false,
        })) || exists|now: u64, resolved: Option<u32>|
            #![auto]
            spec_focus_switch_outcome(
                *old(debounce),
                *final(debounce),
                now,
                config.paired_offset as int,
                resolved,
                r,
            ),
{
    let now = now_millis();
    focus_switch_for_event_at(hyprctl, config, line, debounce, now)
}

/// Routes one classified event: focus events feed the focus debounce,
/// monitor events feed the rebalance debounce, a timeout tick flushes any
/// deferred rebalance, and a disconnect does nothing.
pub fn process_event<I: HyprlandIpc + ?Sized>(
    hyprctl: &I,
    config: &Config,
    rebalance_debounce: &mut RebalanceDebounce,
    focus_debounce: &mut FocusSwitchDebounce,
    event: DaemonEvent,
) -> (r: Result<bool, HyprctlError>)
    requires
        config.wf(),
    ensures
        match event {
            DaemonEvent::Focus(focus) => *final(rebalance_debounce) == *old(rebalance_debounce)
                && ((*final(focus_debounce) == *old(focus_debounce) && r is Err) || exists|
                resolved: Option<u32>,
            |
                #![auto]
                spec_focus_switch_outcome(
                    *old(focus_debounce),
                    *final(focus_debounce),
                    focus.at,
                    config.paired_offset as int,
                    resolved,
                    r,
                )),
            DaemonEvent::Monitor { at, .. } => ({
                let step = spec_record_event(*old(rebalance_debounce), at);
                *final(focus_debounce) == *old(focus_debounce) && *final(rebalance_debounce)
                    == step.0 && match r {
                    Ok(did_work) => did_work == step.1,
                    Err(_) => step.1,
                }
            }),
            DaemonEvent::Timeout { at } => ({
                let step = spec_flush(*old(rebalance_debounce), at);
                *final(focus_debounce) == *old(focus_debounce) && *final(rebalance_debounce)
                    == step.0 && match r {
                    Ok(did_work) => did_work == step.1,
                    Err(_) => step.1,
                }
            }),
            DaemonEvent::Disconnected => *final(focus_debounce) == *old(focus_debounce)
                && *final(rebalance_debounce) == *old(rebalance_debounce) && match r {
                Ok(did_work) => !did_work,
                Err(_) => false,
            },
        },
{
    match event {
        DaemonEvent::Focus(focus) => focus_switch_for_focus_event_at(
            hyprctl,
            config,
            &focus,
            focus_debounce,
        ),
        DaemonEvent::Monitor { kind, at } => rebalance_for_event_at(
            hyprctl,
            config,
            kind,
            rebalance_debounce,
            at,
        ),
        DaemonEvent::Timeout { at } => flush_pending_rebalance_at(
            hyprctl,
            config,
            rebalance_debounce,
            at,
        ),
        DaemonEvent::Disconnected => Ok(false),
    }
}

} // verus!
