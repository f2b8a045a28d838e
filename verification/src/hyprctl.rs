//! Building and dispatching compositor command batches: a batch is a list
//! of `dispatch <dispatcher> <argument>` commands joined by ` ; ` and sent
//! as one atomic unit.
use vstd::prelude::*;
use vstd::string::StringExecFns;

use crate::paired::{normalize_workspace, spec_normalize};
use crate::strutil::{spec_u32_digits, str_eq, u32_to_string};

verus! {

/// The single-command text `dispatch <dispatcher> <argument>`.
pub open spec fn spec_dispatch_cmd(dispatcher: Seq<char>, argument: Seq<char>) -> Seq<char> {
    "dispatch "@ + dispatcher + " "@ + argument
}

/// Commands joined by the atomic-batch separator ` ; `.
pub open spec fn spec_join_batch(cmds: Seq<Seq<char>>) -> Seq<char>
    decreases cmds.len(),
{
    if cmds.len() == 0 {
        Seq::empty()
    } else if cmds.len() == 1 {
        cmds[0]
    } else {
        spec_join_batch(cmds.drop_last()) + " ; "@ + cmds.last()
    }
}

/// An ordered collection of compositor commands, sent as one atomic batch.
#[derive(Debug, PartialEq, Eq)]
pub struct HyprctlBatch {
    commands: Vec<String>,
}

impl View for HyprctlBatch {
    type V = Seq<Seq<char>>;

    closed spec fn view(&self) -> Seq<Seq<char>> {
        self.commands.deep_view()
    }
}

impl HyprctlBatch {
    /// Creates an empty batch.
    pub fn new() -> (r: HyprctlBatch)
        ensures
            r@ =~= Seq::<Seq<char>>::empty(),
    {
        let r = HyprctlBatch { commands: Vec::new() };
        proof {
            assert(r.commands.deep_view() =~= Seq::<Seq<char>>::empty());
        }
        r
    }

    /// Appends the command `dispatch <dispatcher> <argument>`.
    pub fn dispatch(&mut self, dispatcher: &str, argument: &str)
        ensures
            final(self)@ =~= old(self)@.push(spec_dispatch_cmd(dispatcher@, argument@)),
    {
        let mut cmd = String::from_str("dispatch ");
        cmd.append(dispatcher);
        cmd.append(" ");
        cmd.append(argument);
        self.commands.push(cmd);
        proof {
            assert(self.commands.deep_view() =~= old(self).commands.deep_view().push(
                spec_dispatch_cmd(dispatcher@, argument@),
            ));
        }
    }

    /// The batch as one argument string: the commands joined by ` ; `.
    pub fn to_argument(&self) -> (r: String)
        ensures
            r@ == spec_join_batch(self@),
    {
        let mut out = String::new();
        let n = self.commands.len();
        let mut i: usize = 0;
        while i < n
            invariant
                i <= n,
                n == self.commands.len(),
                self@ == self.commands.deep_view(),
                self@.len() == n,
                out@ == spec_join_batch(self@.subrange(0, i as int)),
            decreases n - i,
        {
            if i > 0 {
                out.append(" ; ");
            }
            out.append(self.commands[i].as_str());
            proof {
                let prefix = self@.subrange(0, i as int);
                let next = self@.subrange(0, i as int + 1);
                assert(next.drop_last() =~= prefix);
                assert(next.last() == self@[i as int]);
                assert(self@[i as int] == self.commands.deep_view()[i as int]);
            }
            i = i + 1;
        }
        proof {
            assert(self@.subrange(0, n as int) =~= self@);
        }
        out
    }
}

/// The four-command batch that selects workspace `workspace`'s pair on
/// both monitors and leaves focus on the primary monitor.
pub open spec fn spec_paired_switch_batch(
    primary: Seq<char>,
    secondary: Seq<char>,
    workspace: int,
    offset: int,
) -> Seq<char> {
    let normalized = spec_normalize(workspace, offset);
    spec_join_batch(
        seq![
            spec_dispatch_cmd("focusmonitor"@, secondary),
            spec_dispatch_cmd("workspace"@, spec_u32_digits((normalized + offset) as nat)),
            spec_dispatch_cmd("focusmonitor"@, primary),
            spec_dispatch_cmd("workspace"@, spec_u32_digits(normalized as nat)),
        ],
    )
}

/// Builds the paired-switch batch: focus the secondary monitor, select its
/// paired workspace, then focus the primary monitor and select the
/// normalized workspace, so focus ends on the primary monitor.
pub fn paired_switch_batch(primary: &str, secondary: &str, workspace: u32, offset: u32) -> (r:
    String)
    requires
        workspace >= 1,
        1 <= offset <= 0x7fff_ffff,
    ensures
        r@ == spec_paired_switch_batch(primary@, secondary@, workspace as int, offset as int),
{
    let normalized = normalize_workspace(workspace, offset);
    let secondary_workspace = normalized + offset;
    let mut batch = HyprctlBatch::new();

    batch.dispatch("focusmonitor", secondary);
    let sec_ws = u32_to_string(secondary_workspace);
    batch.dispatch("workspace", sec_ws.as_str());
    batch.dispatch("focusmonitor", primary);
    let norm_ws = u32_to_string(normalized);
    batch.dispatch("workspace", norm_ws.as_str());

    proof {
        assert(batch@ =~= seq![
            spec_dispatch_cmd("focusmonitor"@, secondary@),
            spec_dispatch_cmd(
                "workspace"@,
                spec_u32_digits((spec_normalize(workspace as int, offset as int) + offset) as nat),
            ),
            spec_dispatch_cmd("focusmonitor"@, primary@),
            spec_dispatch_cmd(
                "workspace"@,
                spec_u32_digits(spec_normalize(workspace as int, offset as int) as nat),
            ),
        ]);
    }
    batch.to_argument()
}

/// The paired-switch batch with an explicit monitor to end focus on: the
/// other monitor's selection happens first, so the final focus lands on
/// `focus_monitor`.  Any monitor other than `secondary` is treated as the
/// primary.
pub open spec fn spec_paired_switch_batch_with_focus(
    primary: Seq<char>,
    secondary: Seq<char>,
    workspace: int,
    offset: int,
    focus_monitor: Seq<char>,
) -> Seq<char> {
    let normalized = spec_normalize(workspace, offset);
    if focus_monitor == secondary {
        spec_join_batch(
            seq![
                spec_dispatch_cmd("focusmonitor"@, primary),
                spec_dispatch_cmd("workspace"@, spec_u32_digits(normalized as nat)),
                spec_dispatch_cmd("focusmonitor"@, secondary),
                spec_dispatch_cmd("workspace"@, spec_u32_digits((normalized + offset) as nat)),
            ],
        )
    } else {
        spec_paired_switch_batch(primary, secondary, workspace, offset)
    }
}

/// Builds the paired-switch batch, keeping focus on `focus_monitor`.
pub fn paired_switch_batch_with_focus(
    primary: &str,
    secondary: &str,
    workspace: u32,
    offset: u32,
    focus_monitor: &str,
) -> (r: String)
    requires
        workspace >= 1,
        1 <= offset <= 0x7fff_ffff,
    ensures
        r@ == spec_paired_switch_batch_with_focus(
            primary@,
            secondary@,
            workspace as int,
            offset as int,
            focus_monitor@,
        ),
{
    if str_eq(focus_monitor, secondary) {
        let normalized = normalize_workspace(workspace, offset);
        let secondary_workspace = normalized + offset;
        let mut batch = HyprctlBatch::new();

        batch.dispatch("focusmonitor", primary);
        let norm_ws = u32_to_string(normalized);
        batch.dispatch("workspace", norm_ws.as_str());
        batch.dispatch("focusmonitor", secondary);
        let sec_ws = u32_to_string(secondary_workspace);
        batch.dispatch("workspace", sec_ws.as_str());

        proof {
            assert(batch@ =~= seq![
                spec_dispatch_cmd("focusmonitor"@, primary@),
                spec_dispatch_cmd(
                    "workspace"@,
                    spec_u32_digits(spec_normalize(workspace as int, offset as int) as nat),
                ),
                spec_dispatch_cmd("focusmonitor"@, secondary@),
                spec_dispatch_cmd(
                    "workspace"@,
                    spec_u32_digits(
                        (spec_normalize(workspace as int, offset as int) + offset) as nat,
                    ),
                ),
            ]);
        }
        batch.to_argument()
    } else {
        paired_switch_batch(primary, secondary, workspace, offset)
    }
}

/// The sequence of rebalance commands: workspaces `1..=offset` move to the
/// primary monitor and `offset+1..=2*offset` to the secondary, in order.
pub open spec fn spec_rebalance_cmds(
    primary: Seq<char>,
    secondary: Seq<char>,
    offset: int,
) -> Seq<Seq<char>> {
    Seq::new(
        (2 * offset) as nat,
        |i: int|
            spec_dispatch_cmd(
                "moveworkspacetomonitor"@,
                spec_u32_digits((i + 1) as nat) + " "@ + if i < offset {
                    primary
                } else {
                    secondary
                },
            ),
    )
}

/// The full rebalance batch text.
pub open spec fn spec_rebalance_batch(
    primary: Seq<char>,
    secondary: Seq<char>,
    offset: int,
) -> Seq<char> {
    spec_join_batch(spec_rebalance_cmds(primary, secondary, offset))
}

/// Builds the rebalance batch: one `moveworkspacetomonitor` command per
/// workspace, `1..=offset` to the primary monitor and `offset+1..=2*offset`
/// to the secondary, all in ascending order.
pub fn rebalance_batch(primary: &str, secondary: &str, offset: u32) -> (r: String)
    requires
        offset <= 0x7fff_ffff,
    ensures
        r@ == spec_rebalance_batch(primary@, secondary@, offset as int),
{
    let mut batch = HyprctlBatch::new();
    let ghost cmds = spec_rebalance_cmds(primary@, secondary@, offset as int);

    let mut workspace_id: u32 = 1;
    while workspace_id <= offset
        invariant
            1 <= workspace_id <= offset + 1,
            offset <= 0x7fff_ffff,
            cmds == spec_rebalance_cmds(primary@, secondary@, offset as int),
            batch@ =~= cmds.subrange(0, workspace_id - 1),
        decreases offset + 1 - workspace_id,
    {
        let mut arg = u32_to_string(workspace_id);
        arg.append(" ");
        arg.append(primary);
        batch.dispatch("moveworkspacetomonitor", arg.as_str());
        proof {
            assert(batch@ =~= cmds.subrange(0, workspace_id as int));
        }
        workspace_id = workspace_id + 1;
    }

    let mut workspace_id: u32 = offset + 1;
    while workspace_id <= 2 * offset
        invariant
            offset + 1 <= workspace_id <= 2 * offset + 1,
            offset <= 0x7fff_ffff,
            cmds == spec_rebalance_cmds(primary@, secondary@, offset as int),
            batch@ =~= cmds.subrange(0, workspace_id - 1),
        decreases 2 * offset + 1 - workspace_id,
    {
        let mut arg = u32_to_string(workspace_id);
        arg.append(" ");
        arg.append(secondary);
        batch.dispatch("moveworkspacetomonitor", arg.as_str());
        proof {
            assert(batch@ =~= cmds.subrange(0, workspace_id as int));
        }
        workspace_id = workspace_id + 1;
    }

    proof {
        assert(cmds.subrange(0, 2 * offset) =~= cmds);
    }
    batch.to_argument()
}

/// A monitor as the compositor reports it.
#[derive(Debug)]
pub struct MonitorInfo {
    pub name: String,
    pub x: i32,
    pub id: i32,
}

/// A workspace as the compositor reports it.
#[derive(Debug)]
pub struct WorkspaceInfo {
    pub id: u32,
    pub windows: u32,
    pub name: Option<String>,
    pub monitor: Option<String>,
}

/// The workspace a client window sits on.
#[derive(Debug)]
pub struct WorkspaceRef {
    pub id: u32,
    pub name: Option<String>,
}

/// A live client window as the compositor reports it: identity attributes
/// plus its current workspace.
#[derive(Debug)]
pub struct ClientInfo {
    pub address: String,
    pub workspace: WorkspaceRef,
    pub class: Option<String>,
    pub title: Option<String>,
    pub initial_class: Option<String>,
    pub initial_title: Option<String>,
    pub app_id: Option<String>,
    pub pid: Option<i32>,
}

/// A failure while talking to the compositor: a process-level failure, a
/// command rejected with a non-zero status, an unparseable query response,
/// or a native-binding failure.
#[derive(Debug)]
pub enum HyprctlError {
    Io(std::io::Error),
    CommandFailed { command: String, status: i32, stderr: String },
    Json { command: String },
    Native(String),
}

#[verifier::external_type_specification]
#[verifier::external_body]
pub struct ExIoError(std::io::Error);

#[verifier::external_type_specification]
#[verifier::external_body]
pub struct ExJsonValue(serde_json::Value);

#[verifier::external_type_specification]
#[verifier::external_body]
pub struct ExJsonError(serde_json::Error);

/// Runs the compositor's command-line client with the given arguments and
/// hands back its output.  Implementors perform the actual process or
/// socket work; nothing is assumed of the result.
pub trait HyprctlRunner {
    fn run(&self, args: &[String]) -> Result<String, HyprctlError>;
}

/// The compositor control interface: queries for current state and
/// commands that change it.  Nothing is assumed of any result.
pub trait HyprlandIpc {
    fn batch(&self, batch: &str) -> Result<String, HyprctlError>;

    fn active_workspace_id(&self) -> Result<u32, HyprctlError>;

    fn dispatch(&self, dispatcher: &str, argument: &str) -> Result<String, HyprctlError>;

    fn reload(&self) -> Result<String, HyprctlError>;

    fn monitors(&self) -> Result<Vec<MonitorInfo>, HyprctlError>;

    fn workspaces(&self) -> Result<Vec<WorkspaceInfo>, HyprctlError>;

    fn clients(&self) -> Result<Vec<ClientInfo>, HyprctlError>;
}

/// Relies on `serde_json::from_str::<serde_json::Value>` to parse one JSON
/// document; the error case carries serde's parse error.
#[verifier::external_body]
pub(crate) fn parse_json_value(s: &str) -> Result<serde_json::Value, serde_json::Error> {
    serde_json::from_str(s)
}

/// Relies on `serde_json::Value::get`: indexes into a JSON object or array.
pub assume_specification<'a, I: serde_json::value::Index>[ serde_json::Value::get ](
    v: &'a serde_json::Value,
    index: I,
) -> Option<&'a serde_json::Value>;

/// Relies on `serde_json::Value::as_u64`: the value as an unsigned integer.
pub assume_specification[ serde_json::Value::as_u64 ](v: &serde_json::Value) -> Option<u64>;

/// Relies on `serde_json::Value::as_i64`: the value as a signed integer.
pub assume_specification[ serde_json::Value::as_i64 ](v: &serde_json::Value) -> Option<i64>;

/// Relies on `serde_json::Value::as_str`: the value as a string.
pub assume_specification<'a>[ serde_json::Value::as_str ](
    v: &'a serde_json::Value,
) -> Option<&'a str>;

/// Relies on `serde_json::Value::as_array`: the value as an array.
pub assume_specification<'a>[ serde_json::Value::as_array ](
    v: &'a serde_json::Value,
) -> Option<&'a Vec<serde_json::Value>>;

/// Relies on `serde_json::Value::is_null`: whether the value is JSON null.
pub assume_specification[ serde_json::Value::is_null ](v: &serde_json::Value) -> bool;

/// Relies on `serde_json::Value::is_object`: whether the value is a JSON
/// object.
pub assume_specification[ serde_json::Value::is_object ](v: &serde_json::Value) -> bool;

/// Relies on `serde_json::Value::as_bool`: the value as a boolean.
pub assume_specification[ serde_json::Value::as_bool ](v: &serde_json::Value) -> Option<bool>;

/// Reads a required unsigned 32-bit integer field of a JSON object.
pub(crate) fn json_u32_field(v: &serde_json::Value, key: &str) -> Option<u32> {
    match v.get(key) {
        Some(field) => match field.as_u64() {
            Some(n) => if n <= u32::MAX as u64 {
                Some(n as u32)
            } else {
                None
            },
            None => None,
        },
        None => None,
    }
}

/// Reads a required signed 32-bit integer field of a JSON object.
pub(crate) fn json_i32_field(v: &serde_json::Value, key: &str) -> Option<i32> {
    match v.get(key) {
        Some(field) => match field.as_i64() {
            Some(n) => if i32::MIN as i64 <= n && n <= i32::MAX as i64 {
                Some(n as i32)
            } else {
                None
            },
            None => None,
        },
        None => None,
    }
}

/// Reads a required string field of a JSON object.
pub(crate) fn json_string_field(v: &serde_json::Value, key: &str) -> Option<String> {
    match v.get(key) {
        Some(field) => match field.as_str() {
            Some(text) => Some(text.to_owned()),
            None => None,
        },
        None => None,
    }
}

/// An optional string value: absent or null is `Some(None)`, a string is
/// `Some(Some(..))`, and any other shape is a failure.
pub(crate) fn json_opt_string_value(field: &serde_json::Value) -> Option<Option<String>> {
    if field.is_null() {
        Some(None)
    } else {
        match field.as_str() {
            Some(text) => Some(Some(text.to_owned())),
            None => None,
        }
    }
}

/// Reads an optional string field of a JSON object.
pub(crate) fn json_opt_string_field(v: &serde_json::Value, key: &str) -> Option<Option<String>> {
    match v.get(key) {
        Some(field) => json_opt_string_value(field),
        None => Some(None),
    }
}

/// Reads an optional string field that the compositor writes under either
/// of two key spellings.
pub(crate) fn json_opt_string_alias(v: &serde_json::Value, key: &str, alias: &str) -> Option<Option<String>> {
    match v.get(key) {
        Some(field) => json_opt_string_value(field),
        None => match v.get(alias) {
            Some(field) => json_opt_string_value(field),
            None => Some(None),
        },
    }
}

/// Reads an optional signed 32-bit integer field of a JSON object.
pub(crate) fn json_opt_i32_field(v: &serde_json::Value, key: &str) -> Option<Option<i32>> {
    match v.get(key) {
        Some(field) => if field.is_null() {
            Some(None)
        } else {
            match field.as_i64() {
                Some(n) => if i32::MIN as i64 <= n && n <= i32::MAX as i64 {
                    Some(Some(n as i32))
                } else {
                    None
                },
                None => None,
            }
        },
        None => Some(None),
    }
}

/// Parses the active-workspace query response `{"id": ..}`.
fn parse_active_workspace(output: &str) -> Option<u32> {
    match parse_json_value(output) {
        Ok(v) => json_u32_field(&v, "id"),
        Err(_) => None,
    }
}

/// Parses the monitor-list query response.
fn parse_monitors(output: &str) -> Option<Vec<MonitorInfo>> {
    let parsed = match parse_json_value(output) {
        Ok(v) => v,
        Err(_) => { return None; },
    };
    let items = match parsed.as_array() {
        Some(items) => items,
        None => { return None; },
    };
    let mut monitors: Vec<MonitorInfo> = Vec::new();
    let mut i: usize = 0;
    while i < items.len()
        decreases items.len() - i,
    {
        let item = &items[i];
        let name = match json_string_field(item, "name") {
            Some(name) => name,
            None => { return None; },
        };
        let x = match json_i32_field(item, "x") {
            Some(x) => x,
            None => { return None; },
        };
        let id = match json_i32_field(item, "id") {
            Some(id) => id,
            None => { return None; },
        };
        monitors.push(MonitorInfo { name, x, id });
        i = i + 1;
    }
    Some(monitors)
}

/// Parses the workspace-list query response.
fn parse_workspaces(output: &str) -> Option<Vec<WorkspaceInfo>> {
    let parsed = match parse_json_value(output) {
        Ok(v) => v,
        Err(_) => { return None; },
    };
    let items = match parsed.as_array() {
        Some(items) => items,
        None => { return None; },
    };
    let mut workspaces: Vec<WorkspaceInfo> = Vec::new();
    let mut i: usize = 0;
    while i < items.len()
        decreases items.len() - i,
    {
        let item = &items[i];
        let id = match json_u32_field(item, "id") {
            Some(id) => id,
            None => { return None; },
        };
        let windows = match json_u32_field(item, "windows") {
            Some(windows) => windows,
            None => { return None; },
        };
        let name = match json_opt_string_field(item, "name") {
            Some(name) => name,
            None => { return None; },
        };
        let monitor = match json_opt_string_field(item, "monitor") {
            Some(monitor) => monitor,
            None => { return None; },
        };
        workspaces.push(WorkspaceInfo { id, windows, name, monitor });
        i = i + 1;
    }
    Some(workspaces)
}

/// Parses the client-list query response.
fn parse_clients(output: &str) -> Option<Vec<ClientInfo>> {
    let parsed = match parse_json_value(output) {
        Ok(v) => v,
        Err(_) => { return None; },
    };
    let items = match parsed.as_array() {
        Some(items) => items,
        None => { return None; },
    };
    let mut clients: Vec<ClientInfo> = Vec::new();
    let mut i: usize = 0;
    while i < items.len()
        decreases items.len() - i,
    {
        let item = &items[i];
        let address = match json_string_field(item, "address") {
            Some(address) => address,
            None => { return None; },
        };
        let workspace_value = match item.get("workspace") {
            Some(w) => w,
            None => { return None; },
        };
        let workspace_id = match json_u32_field(workspace_value, "id") {
            Some(id) => id,
            None => { return None; },
        };
        let workspace_name = match json_opt_string_field(workspace_value, "name") {
            Some(name) => name,
            None => { return None; },
        };
        let class = match json_opt_string_field(item, "class") {
            Some(class) => class,
            None => { return None; },
        };
        let title = match json_opt_string_field(item, "title") {
            Some(title) => title,
            None => { return None; },
        };
        let initial_class = match json_opt_string_alias(item, "initialClass", "initialclass") {
            Some(initial_class) => initial_class,
            None => { return None; },
        };
        let initial_title = match json_opt_string_alias(item, "initialTitle", "initialtitle") {
            Some(initial_title) => initial_title,
            None => { return None; },
        };
        let app_id = match json_opt_string_alias(item, "appID", "appId") {
            Some(app_id) => app_id,
            None => { return None; },
        };
        let pid = match json_opt_i32_field(item, "pid") {
            Some(pid) => pid,
            None => { return None; },
        };
        clients.push(
            ClientInfo {
                address,
                workspace: WorkspaceRef { id: workspace_id, name: workspace_name },
                class,
                title,
                initial_class,
                initial_title,
                app_id,
                pid,
            },
        );
        i = i + 1;
    }
    Some(clients)
}

/// The command-line compositor client: formats each operation as arguments
/// for a runner and parses the JSON the compositor answers with.
pub struct Hyprctl<R> {
    runner: R,
}

impl<R> Hyprctl<R> {
    /// Wraps a runner.
    pub fn new(runner: R) -> Hyprctl<R> {
        Hyprctl { runner }
    }
}

impl<R: HyprctlRunner> Hyprctl<R> {
    /// Sends a prepared batch as one atomic `--batch` invocation.
    pub fn batch(&self, batch: &str) -> Result<String, HyprctlError> {
        let args = vec![String::from_str("--batch"), String::from_str(batch)];
        self.runner.run(args.as_slice())
    }

    /// Queries the id of the currently focused workspace.
    pub fn active_workspace_id(&self) -> Result<u32, HyprctlError> {
        let args = vec![String::from_str("-j"), String::from_str("activeworkspace")];
        let output = self.runner.run(args.as_slice())?;
        match parse_active_workspace(output.as_str()) {
            Some(id) => Ok(id),
            None => Err(HyprctlError::Json { command: String::from_str("activeworkspace") }),
        }
    }

    /// Dispatches a single command.
    pub fn dispatch(&self, dispatcher: &str, argument: &str) -> Result<String, HyprctlError> {
        let args = vec![
            String::from_str("dispatch"),
            String::from_str(dispatcher),
            String::from_str(argument),
        ];
        self.runner.run(args.as_slice())
    }

    /// Asks the compositor to reload its configuration.
    pub fn reload(&self) -> Result<String, HyprctlError> {
        let args = vec![String::from_str("reload")];
        self.runner.run(args.as_slice())
    }

    /// Queries the monitor list.
    pub fn monitors(&self) -> Result<Vec<MonitorInfo>, HyprctlError> {
        let args = vec![String::from_str("-j"), String::from_str("monitors")];
        let output = self.runner.run(args.as_slice())?;
        match parse_monitors(output.as_str()) {
            Some(monitors) => Ok(monitors),
            None => Err(HyprctlError::Json { command: String::from_str("monitors") }),
        }
    }

    /// Queries the workspace list.
    pub fn workspaces(&self) -> Result<Vec<WorkspaceInfo>, HyprctlError> {
        let args = vec![String::from_str("-j"), String::from_str("workspaces")];
        let output = self.runner.run(args.as_slice())?;
        match parse_workspaces(output.as_str()) {
            Some(workspaces) => Ok(workspaces),
            None => Err(HyprctlError::Json { command: String::from_str("workspaces") }),
        }
    }

    /// Queries the client-window list.
    pub fn clients(&self) -> Result<Vec<ClientInfo>, HyprctlError> {
        let args = vec![String::from_str("-j"), String::from_str("clients")];
        let output = self.runner.run(args.as_slice())?;
        match parse_clients(output.as_str()) {
            Some(clients) => Ok(clients),
            None => Err(HyprctlError::Json { command: String::from_str("clients") }),
        }
    }
}

impl<R: HyprctlRunner> HyprlandIpc for Hyprctl<R> {
    fn batch(&self, batch: &str) -> Result<String, HyprctlError> {
        Hyprctl::batch(self, batch)
    }

    fn active_workspace_id(&self) -> Result<u32, HyprctlError> {
        Hyprctl::active_workspace_id(self)
    }

    fn dispatch(&self, dispatcher: &str, argument: &str) -> Result<String, HyprctlError> {
        Hyprctl::dispatch(self, dispatcher, argument)
    }

    fn reload(&self) -> Result<String, HyprctlError> {
        Hyprctl::reload(self)
    }

    fn monitors(&self) -> Result<Vec<MonitorInfo>, HyprctlError> {
        Hyprctl::monitors(self)
    }

    fn workspaces(&self) -> Result<Vec<WorkspaceInfo>, HyprctlError> {
        Hyprctl::workspaces(self)
    }

    fn clients(&self) -> Result<Vec<ClientInfo>, HyprctlError> {
        Hyprctl::clients(self)
    }
}

/// The dispatch argument that moves the window at `address` to workspace
/// `target` without changing focus.
pub open spec fn spec_move_silent_arg(target: int, address: Seq<char>) -> Seq<char> {
    spec_u32_digits(target as nat) + ",address:"@ + address
}

/// Builds the `movetoworkspacesilent` argument `<target>,address:<addr>`.
pub fn move_silent_arg(target: u32, address: &str) -> (r: String)
    ensures
        r@ == spec_move_silent_arg(target as int, address@),
{
    let mut arg = u32_to_string(target);
    arg.append(",address:");
    arg.append(address);
    arg
}

/// The dispatch argument `<target>,address:<addr>` with a textual target:
/// a special workspace is addressed by name.
pub open spec fn spec_move_target_arg(target: Seq<char>, address: Seq<char>) -> Seq<char> {
    target + ",address:"@ + address
}

/// Builds the `movetoworkspacesilent` argument with a textual target.
pub fn move_target_arg(target: &str, address: &str) -> (r: String)
    ensures
        r@ == spec_move_target_arg(target@, address@),
{
    let mut arg = String::from_str(target);
    arg.append(",address:");
    arg.append(address);
    arg
}

} // verus!
