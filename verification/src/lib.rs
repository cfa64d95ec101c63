//! Companion daemon library for a tiling compositor: declarative window
//! placement rules, matched against newly seen windows, producing compositor
//! commands.
//!
//! The library holds the verified core: rule matching (regex and
//! process-ancestry predicates combined under an `Any`/`All` strategy), rule
//! lifetime bookkeeping, window de-duplication, and the translation of rule
//! actions into discrete compositor commands. Socket transport, configuration
//! files and argument handling live outside the library.

pub mod compositor;
pub mod config;
pub mod daemon;
pub mod ipc;
pub mod niri_tracker;
pub mod process;
pub mod rules_common;
pub mod window_rules;
