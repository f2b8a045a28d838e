//! One-shot paired-workspace commands: switching, cycling, moving a
//! window to its paired slot, and migrating stray windows back into the
//! primary range.
use vstd::prelude::*;

use crate::config::Config;
use crate::hyprctl::{
    move_silent_arg, paired_switch_batch_with_focus, ClientInfo, HyprctlError, HyprlandIpc,
};
use crate::strutil::u32_to_string;
use crate::paired::{cycle_target, normalize_workspace, spec_normalize};

verus! {

/// The monitor that currently holds focus, judged by which range the
/// active workspace id falls in.
pub fn focus_monitor_for_active_workspace<'a>(config: &'a Config, active_workspace: u32) -> (r:
    &'a str)
    ensures
        r@ == if active_workspace > config.paired_offset {
            config.secondary_monitor@
        } else {
            config.primary_monitor@
        },
{
    if active_workspace > config.paired_offset {
        config.secondary_monitor.as_str()
    } else {
        config.primary_monitor.as_str()
    }
}

/// Sends the paired-switch batch for `workspace`, keeping focus on
/// `focus_monitor`.
fn paired_switch_with_focus<I: HyprlandIpc + ?Sized>(
    hyprctl: &I,
    config: &Config,
    workspace: u32,
    focus_monitor: &str,
) -> (r: Result<(), HyprctlError>)
    requires
        config.wf(),
        workspace >= 1,
{
    let batch = paired_switch_batch_with_focus(
        config.primary_monitor.as_str(),
        config.secondary_monitor.as_str(),
        workspace,
        config.paired_offset,
        focus_monitor,
    );
    match hyprctl.batch(batch.as_str()) {
        Ok(_) => Ok(()),
        Err(e) => Err(e),
    }
}

/// Switches both monitors to the pair of `workspace`, keeping focus on
/// whichever monitor currently holds it.
pub fn paired_switch<I: HyprlandIpc + ?Sized>(hyprctl: &I, config: &Config, workspace: u32) -> (r:
    Result<(), HyprctlError>)
    requires
        config.wf(),
        workspace >= 1,
{
    let active_workspace = match hyprctl.active_workspace_id() {
        Ok(id) => id,
        Err(e) => { return Err(e); },
    };
    let focus_monitor = focus_monitor_for_active_workspace(config, active_workspace);
    paired_switch_with_focus(hyprctl, config, workspace, focus_monitor)
}

/// Cycles the pair one slot forward or backward from the active
/// workspace, honouring the configured wrapping mode.
pub fn paired_cycle<I: HyprlandIpc + ?Sized>(
    hyprctl: &I,
    config: &Config,
    direction: crate::paired::CycleDirection,
) -> (r: Result<(), HyprctlError>)
    requires
        config.wf(),
{
    let active_workspace = match hyprctl.active_workspace_id() {
        Ok(id) => id,
        Err(e) => { return Err(e); },
    };
    if active_workspace == 0 {
        return Ok(());
    }
    let focus_monitor = focus_monitor_for_active_workspace(config, active_workspace);
    let base = normalize_workspace(active_workspace, config.paired_offset);
    let target = cycle_target(base, config.paired_offset, direction, config.wrap_cycling);
    paired_switch_with_focus(hyprctl, config, target, focus_monitor)
}

/// Moves the focused window to the pair of `workspace` on the side of
/// the currently focused monitor, then switches the pair there.
pub fn paired_move_window<I: HyprlandIpc + ?Sized>(
    hyprctl: &I,
    config: &Config,
    workspace: u32,
) -> (r: Result<(), HyprctlError>)
    requires
        config.wf(),
        workspace >= 1,
{
    let normalized = normalize_workspace(workspace, config.paired_offset);
    let active_workspace = match hyprctl.active_workspace_id() {
        Ok(id) => id,
        Err(e) => { return Err(e); },
    };
    let focus_monitor = focus_monitor_for_active_workspace(config, active_workspace);
    let mut target = normalized;
    if active_workspace > config.paired_offset {
        target = target + config.paired_offset;
    }
    let argument = u32_to_string(target);
    match hyprctl.dispatch("movetoworkspacesilent", argument.as_str()) {
        Ok(_) => {},
        Err(e) => { return Err(e); },
    }
    paired_switch_with_focus(hyprctl, config, normalized, focus_monitor)
}

/// The moves that bring every stray window back to its normalized slot:
/// one `(address, slot)` pair per client whose workspace differs from its
/// slot, in client order.  A client on workspace zero is left alone.
pub open spec fn spec_migration_targets(clients: Seq<ClientInfo>, offset: int) -> Seq<
    (Seq<char>, int),
>
    decreases clients.len(),
{
    if clients.len() == 0 {
        Seq::empty()
    } else {
        let rest = spec_migration_targets(clients.drop_first(), offset);
        let client = clients[0];
        if client.workspace.id >= 1 && spec_normalize(client.workspace.id as int, offset)
            != client.workspace.id {
            seq![(client.address@, spec_normalize(client.workspace.id as int, offset))] + rest
        } else {
            rest
        }
    }
}

/// The view of an address-and-slot list.
pub open spec fn spec_targets_view(targets: Seq<(String, u32)>) -> Seq<(Seq<char>, int)> {
    targets.map_values(|p: (String, u32)| (p.0@, p.1 as int))
}

/// Computes which clients sit outside their normalized slot and where
/// each belongs.
pub fn migration_targets(clients: &Vec<ClientInfo>, offset: u32) -> (r: Vec<(String, u32)>)
    requires
        1 <= offset <= 0x7fff_ffff,
    ensures
        spec_targets_view(r@) == spec_migration_targets(clients@, offset as int),
{
    let mut targets: Vec<(String, u32)> = Vec::new();
    let mut i: usize = 0;
    proof {
        assert(clients@.subrange(0, clients@.len() as int) =~= clients@);
        assert(spec_targets_view(targets@) =~= Seq::<(Seq<char>, int)>::empty());
    }
    while i < clients.len()
        invariant
            i <= clients@.len(),
            1 <= offset <= 0x7fff_ffff,
            spec_migration_targets(clients@, offset as int) =~= spec_targets_view(targets@)
                + spec_migration_targets(
                clients@.subrange(i as int, clients@.len() as int),
                offset as int,
            ),
        decreases clients@.len() - i,
    {
        proof {
            let rest = clients@.subrange(i as int, clients@.len() as int);
            assert(rest[0] == clients@[i as int]);
            assert(rest.drop_first() =~= clients@.subrange(i as int + 1, clients@.len() as int));
        }
        let client = &clients[i];
        if client.workspace.id >= 1 {
            let slot = normalize_workspace(client.workspace.id, offset);
            if slot != client.workspace.id {
                let address = client.address.clone();
                targets.push((address, slot));
                proof {
                    assert(spec_targets_view(targets@) =~= spec_targets_view(
                        targets@.drop_last(),
                    ).push((clients@[i as int].address@, slot as int)));
                }
            }
        }
        i = i + 1;
        proof {
            assert(spec_migration_targets(clients@, offset as int) =~= spec_targets_view(targets@)
                + spec_migration_targets(
                clients@.subrange(i as int, clients@.len() as int),
                offset as int,
            ));
        }
    }
    proof {
        assert(clients@.subrange(clients@.len() as int, clients@.len() as int) =~= Seq::<
            ClientInfo,
        >::empty());
        assert(spec_targets_view(targets@) + Seq::<(Seq<char>, int)>::empty() =~= spec_targets_view(
            targets@,
        ));
    }
    targets
}

/// Moves every client that sits outside its normalized pairing range
/// back to its slot; reports how many windows were moved.
pub fn migrate_windows<I: HyprlandIpc + ?Sized>(hyprctl: &I, config: &Config) -> (r: Result<
    usize,
    HyprctlError,
>)
    requires
        config.wf(),
{
    let clients = match hyprctl.clients() {
        Ok(clients) => clients,
        Err(e) => { return Err(e); },
    };
    let targets = migration_targets(&clients, config.paired_offset);
    dispatch_targets(hyprctl, &targets)
}

/// Like `migrate_windows`, but normalizes against the workspace count:
/// grabs windows that sit beyond the configured range entirely.
pub fn grab_rogue_windows<I: HyprlandIpc + ?Sized>(hyprctl: &I, config: &Config) -> (r: Result<
    usize,
    HyprctlError,
>)
    requires
        config.wf(),
        1 <= config.workspace_count <= 0x7fff_ffff,
{
    let clients = match hyprctl.clients() {
        Ok(clients) => clients,
        Err(e) => { return Err(e); },
    };
    let targets = migration_targets(&clients, config.workspace_count);
    dispatch_targets(hyprctl, &targets)
}

/// Dispatches one silent move per target; reports the count on success.
fn dispatch_targets<I: HyprlandIpc + ?Sized>(hyprctl: &I, targets: &Vec<(String, u32)>) -> (r:
    Result<usize, HyprctlError>)
    ensures
        match r {
            Ok(count) => count == targets@.len(),
            Err(_) => true,
        },
{
    let mut i: usize = 0;
    while i < targets.len()
        decreases targets@.len() - i,
    {
        let argument = move_silent_arg(targets[i].1, targets[i].0.as_str());
        match hyprctl.dispatch("movetoworkspacesilent", argument.as_str()) {
            Ok(_) => {},
            Err(e) => { return Err(e); },
        }
        i = i + 1;
    }
    Ok(targets.len())
}

} // verus!
