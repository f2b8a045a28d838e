//! The command-line surface as plain data: the parsed invocation, its
//! errors, and the helpers that identify a running daemon process.
//! Argument parsing itself lives outside the library.
use vstd::prelude::*;

use crate::config::ConfigError;
use crate::hyprctl::HyprctlError;
use crate::paired::CycleDirection;
use crate::strutil::{spec_ends_with, str_ends_with, str_eq};
use vstd::string::StringExecFns;
use crate::waybar::WaybarError;

verus! {

/// Which transport talks to the compositor.
#[derive(Debug, Clone, Copy)]
pub enum IpcBackend {
    Hyprctl,
    Native,
}

/// A parsed invocation.
#[derive(Debug)]
pub struct Cli {
    pub ipc: IpcBackend,
    pub command: Command,
}

/// The top-level command.
#[derive(Debug)]
pub enum Command {
    Paired { command: PairedCommand },
    Daemon,
    Setup { command: SetupCommand },
    Waybar(WaybarArgs),
}

/// A paired-workspace operation.
#[derive(Debug)]
pub enum PairedCommand {
    Switch { workspace: u32 },
    Cycle { direction: CycleDirectionArg },
    MoveWindow { workspace: u32 },
}

/// The cycling direction as the command line spells it.
#[derive(Debug, Clone, Copy)]
pub enum CycleDirectionArg {
    Next,
    Prev,
}

impl From<CycleDirectionArg> for CycleDirection {
    fn from(value: CycleDirectionArg) -> (r: CycleDirection) {
        match value {
            CycleDirectionArg::Next => CycleDirection::Next,
            CycleDirectionArg::Prev => CycleDirection::Prev,
        }
    }
}

impl vstd::std_specs::convert::FromSpecImpl<CycleDirectionArg> for CycleDirection {
    open spec fn obeys_from_spec() -> bool {
        true
    }

    open spec fn from_spec(value: CycleDirectionArg) -> CycleDirection {
        match value {
            CycleDirectionArg::Next => CycleDirection::Next,
            CycleDirectionArg::Prev => CycleDirection::Prev,
        }
    }
}

/// A setup operation.
#[derive(Debug)]
pub enum SetupCommand {
    Install(InstallArgs),
    Uninstall,
    MigrateWindows,
}

/// Options of the install command.
#[derive(Debug)]
pub struct InstallArgs {
    pub waybar: bool,
}

/// Options of the status-bar command.
#[derive(Debug)]
pub struct WaybarArgs {
    pub enable_waybar: bool,
    pub theme_css: Option<String>,
}

/// A failure at the command-line surface.
#[derive(Debug)]
pub enum CliError {
    MissingEnv(&'static str),
    MissingSocket(String),
    WaybarDisabled,
    NativeIpcUnavailable,
    Io(std::io::Error),
    Config(ConfigError),
    Hyprctl(HyprctlError),
    Waybar(WaybarError),
}

impl WaybarArgs {
    /// Status-bar output must be asked for explicitly.
    pub fn ensure_enabled(&self) -> (r: Result<(), CliError>)
        ensures
            match r {
                Ok(_) => self.enable_waybar,
                Err(e) => !self.enable_waybar && e is WaybarDisabled,
            },
    {
        if self.enable_waybar {
            Ok(())
        } else {
            Err(CliError::WaybarDisabled)
        }
    }
}

/// The daemon's pid file under the base directory.
pub fn daemon_pid_path(base_dir: &str) -> (r: String)
    ensures
        r@ == base_dir@ + "/daemon.pid"@,
{
    let mut path = String::from_str(base_dir);
    path.append("/daemon.pid");
    path
}

/// What `String::from_utf8_lossy` makes of a byte sequence: a function
/// of the bytes alone.
pub uninterp spec fn lossy_of(bytes: Seq<u8>) -> Seq<char>;

/// Relies on `String::from_utf8_lossy`: decodes one command-line segment,
/// replacing invalid sequences.
#[verifier::external_body]
fn lossy_string_range(bytes: &[u8], start: usize, end: usize) -> (r: String)
    requires
        start <= end <= bytes@.len(),
    ensures
        r@ == lossy_of(bytes@.subrange(start as int, end as int)),
{
    String::from_utf8_lossy(&bytes[start..end]).to_string()
}

/// The arguments encoded in a NUL-separated command line: the nonempty
/// segments, each decoded leniently.
pub open spec fn spec_cmdline_acc(bytes: Seq<u8>, start: Seq<u8>) -> Seq<Seq<char>>
    decreases bytes.len(),
{
    if bytes.len() == 0 {
        if start.len() == 0 {
            Seq::empty()
        } else {
            seq![lossy_of(start)]
        }
    } else if bytes[0] == 0 {
        if start.len() == 0 {
            spec_cmdline_acc(bytes.drop_first(), Seq::empty())
        } else {
            seq![lossy_of(start)] + spec_cmdline_acc(bytes.drop_first(), Seq::empty())
        }
    } else {
        spec_cmdline_acc(bytes.drop_first(), start.push(bytes[0]))
    }
}

/// The arguments of a NUL-separated command line.
pub open spec fn spec_cmdline_args(bytes: Seq<u8>) -> Seq<Seq<char>> {
    spec_cmdline_acc(bytes, Seq::empty())
}

/// Splits a process's raw command line into its arguments.
pub fn parse_cmdline(bytes: &[u8]) -> (r: Vec<String>)
    ensures
        crate::strutil::spec_string_views(r@) == spec_cmdline_args(bytes@),
{
    let len = bytes.len();
    let mut args: Vec<String> = Vec::new();
    let mut start: usize = 0;
    let mut i: usize = 0;
    proof {
        assert(crate::strutil::spec_string_views(args@) =~= Seq::<Seq<char>>::empty());
        assert(bytes@.subrange(0, 0) =~= Seq::<u8>::empty());
        assert(bytes@.subrange(0, len as int) =~= bytes@);
        assert(Seq::<Seq<char>>::empty() + spec_cmdline_acc(bytes@, Seq::empty())
            =~= spec_cmdline_acc(bytes@, Seq::empty()));
    }
    while i < len
        invariant
            start <= i <= len,
            len == bytes@.len(),
            spec_cmdline_args(bytes@) =~= crate::strutil::spec_string_views(args@)
                + spec_cmdline_acc(
                bytes@.subrange(i as int, len as int),
                bytes@.subrange(start as int, i as int),
            ),
        decreases len - i,
    {
        proof {
            let rest = bytes@.subrange(i as int, len as int);
            assert(rest[0] == bytes@[i as int]);
            assert(rest.drop_first() =~= bytes@.subrange(i as int + 1, len as int));
        }
        let b = *vstd::slice::slice_index_get(bytes, i);
        if b == 0 {
            if i > start {
                args.push(lossy_string_range(bytes, start, i));
                proof {
                    assert(crate::strutil::spec_string_views(args@)
                        =~= crate::strutil::spec_string_views(args@.drop_last()).push(
                        lossy_of(bytes@.subrange(start as int, i as int)),
                    ));
                }
            }
            proof {
                assert(bytes@.subrange(i as int + 1, i as int + 1) =~= Seq::<u8>::empty());
            }
            start = i + 1;
        } else {
            proof {
                assert(bytes@.subrange(start as int, i as int).push(bytes@[i as int])
                    =~= bytes@.subrange(start as int, i as int + 1));
            }
        }
        i = i + 1;
    }
    if start < len {
        args.push(lossy_string_range(bytes, start, len));
        proof {
            assert(crate::strutil::spec_string_views(args@) =~= crate::strutil::spec_string_views(
                args@.drop_last(),
            ).push(lossy_of(bytes@.subrange(start as int, len as int))));
            assert(bytes@.subrange(len as int, len as int) =~= Seq::<u8>::empty());
        }
    } else {
        proof {
            assert(bytes@.subrange(len as int, len as int) =~= Seq::<u8>::empty());
            assert(crate::strutil::spec_string_views(args@) + Seq::<Seq<char>>::empty()
                =~= crate::strutil::spec_string_views(args@));
        }
    }
    args
}

/// Whether a command line belongs to a running daemon: some argument is
/// `daemon` and the binary path ends in the program name.
pub open spec fn spec_cmdline_is_daemon(args: Seq<String>) -> bool {
    (exists|i: int| 0 <= i < args.len() && (#[trigger] args[i])@ == "daemon"@) && args.len() > 0
        && spec_ends_with(args[0]@, "hyprspaces"@)
}

/// Tests whether a process's arguments identify the daemon.
pub fn cmdline_is_daemon(args: &Vec<String>) -> (r: bool)
    ensures
        r == spec_cmdline_is_daemon(args@),
{
    let mut has_daemon = false;
    let mut i: usize = 0;
    while i < args.len()
        invariant
            i <= args@.len(),
            has_daemon == exists|k: int| 0 <= k < i && (#[trigger] args@[k])@ == "daemon"@,
        decreases args@.len() - i,
    {
        if str_eq(args[i].as_str(), "daemon") {
            has_daemon = true;
        }
        i = i + 1;
    }
    if !has_daemon {
        return false;
    }
    if args.len() == 0 {
        return false;
    }
    str_ends_with(args[0].as_str(), "hyprspaces")
}

} // verus!
