//! The control channel's request handling: what a well-formed request from a
//! short-lived client does to the shared rule set.
//!
//! The socket itself — binding, accepting, line framing, and request
//! deserialization — is I/O and lives outside the library. The glue out
//! there parses one line into an [`IpcCommand`] and hands it to
//! [`Ipc::handle_request`] under the rule set's lock; a malformed line is
//! skipped out there and never reaches the library.

use vstd::prelude::*;

use crate::config::Config;
use crate::window_rules::WindowRule;

verus! {

/// A control-channel request. The protocol has a single variant: register
/// one rule.
pub enum IpcCommand {
    WindowRule(WindowRule),
}

/// The control channel's handling core.
pub struct Ipc;

impl Ipc {
    /// Applies one request to the shared rule set: a registration appends
    /// its rule after every rule already present, and nothing else changes.
    pub fn handle_request(config: &mut Config, command: IpcCommand)
        ensures
            command matches IpcCommand::WindowRule(rule) ==> final(config)@ == old(
                config,
            )@.push(rule),
    {
        match command {
            IpcCommand::WindowRule(rule) => config.add_window_rule(rule),
        }
    }
}

} // verus!
