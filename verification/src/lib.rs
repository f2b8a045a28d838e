//! Paired workspaces for a two-monitor compositor session: workspace `N`
//! on the primary monitor mirrors workspace `N + offset` on the
//! secondary, a daemon keeps the two in sync from the compositor's
//! notification stream, and a snapshot engine captures and restores
//! window placement.
use vstd::prelude::*;

pub mod cli;
pub mod commands;
pub mod config;
pub mod daemon;
pub mod hyprctl;
pub mod paired;
pub mod paths;
pub mod session;
pub mod strutil;
pub mod waybar;

verus! {

} // verus!
