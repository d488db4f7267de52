//! Launcher logic for the jiji compositor: capability gating, the verb
//! registry, the launch snapshot, inventory shaping for the pickers, and the
//! per-verb decision machines that drive `niri msg` / `jiji-activities`.

pub mod capabilities;
pub mod error;
pub mod invocation;
pub mod text;
pub mod order;
pub mod registry;
pub mod niri;
pub mod snapshot;
pub mod menu;
pub mod protocol;
pub mod verbs;
pub mod launcher;
pub mod cli;
pub mod completions;
