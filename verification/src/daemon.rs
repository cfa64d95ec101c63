//! The daemon core: owns the shared rule set and the window tracker, and
//! turns each compositor event into tracker updates and outbound commands.
//!
//! The event stream itself and the socket that carries the resulting
//! commands are I/O and live outside the library; the loop out there reads
//! one event, hands it to [`Daemon::handle_event`] under the daemon's lock,
//! and sends whatever commands come back.

use vstd::prelude::*;

use crate::compositor::{Command, Event, Window};
use crate::config::{spec_evaluate_rules, Config};
use crate::niri_tracker::{spec_forget_id, spec_window_ids, NiriTracker};
use crate::process::ProcessTable;

verus! {

/// The daemon's state: the rule set shared with the control channel, and the
/// tracker that de-duplicates window appearances.
pub struct Daemon {
    pub config: Config,
    pub tracker: NiriTracker,
}

impl Daemon {
    /// A daemon that starts from the loaded rule set and knows no window.
    pub fn new(config: Config) -> (daemon: Daemon)
        ensures
            daemon.config@ == config@,
            daemon.tracker@ == Seq::<u64>::empty(),
    {
        Daemon { config, tracker: NiriTracker::new() }
    }

    /// Handles one window appearance: the tracker gates duplicates, so the
    /// rule set is evaluated exactly once per appearance of an id — a
    /// repeated notification for a known id changes nothing and issues no
    /// command.
    pub fn handle_window_opened_or_changed(
        &mut self,
        window: &Window,
        procs: &ProcessTable,
    ) -> (commands: Vec<Command>)
        ensures
            !old(self).tracker@.contains(window.id) ==> {
                &&& final(self).tracker@ == old(self).tracker@.push(window.id)
                &&& final(self).config@ == spec_evaluate_rules(
                    old(self).config@,
                    *window,
                    procs@,
                ).0
                &&& commands@ == spec_evaluate_rules(old(self).config@, *window, procs@).1
            },
            old(self).tracker@.contains(window.id) ==> {
                &&& *final(self) == *old(self)
                &&& commands@ == Seq::<Command>::empty()
            },
    {
        if self.tracker.register_window(window) {
            self.config.evaluate_window(window, procs)
        } else {
            Vec::new()
        }
    }

    /// Dispatches one compositor event, in stream order: a full resync
    /// replaces the known-id set, a close forgets exactly the closed id, a
    /// window appearance goes through the de-duplication gate and the rule
    /// set, and every other event is ignored. Only a fresh window appearance
    /// can issue commands or touch the rule set.
    pub fn handle_event(&mut self, event: &Event, procs: &ProcessTable) -> (commands: Vec<Command>)
        ensures
            (*event) matches Event::WindowsChanged { windows } ==> {
                &&& final(self).tracker@ == spec_window_ids(windows@)
                &&& final(self).config@ == old(self).config@
                &&& commands@ == Seq::<Command>::empty()
            },
            (*event) matches Event::WindowClosed { id } ==> {
                &&& final(self).tracker@ == spec_forget_id(old(self).tracker@, id)
                &&& final(self).config@ == old(self).config@
                &&& commands@ == Seq::<Command>::empty()
            },
            (*event) matches Event::WindowOpenedOrChanged { window } ==> {
                &&& !old(self).tracker@.contains(window.id) ==> {
                    &&& final(self).tracker@ == old(self).tracker@.push(window.id)
                    &&& final(self).config@ == spec_evaluate_rules(
                        old(self).config@,
                        window,
                        procs@,
                    ).0
                    &&& commands@ == spec_evaluate_rules(old(self).config@, window, procs@).1
                }
                &&& old(self).tracker@.contains(window.id) ==> {
                    &&& *final(self) == *old(self)
                    &&& commands@ == Seq::<Command>::empty()
                }
            },
            (*event) is Other ==> *final(self) == *old(self) && commands@ == Seq::<
                Command,
            >::empty(),
    {
        match event {
            Event::WindowsChanged { windows } => {
                self.tracker.update_windows(windows);
                Vec::new()
            },
            Event::WindowClosed { id } => {
                self.tracker.unregister_window(id);
                Vec::new()
            },
            Event::WindowOpenedOrChanged { window } => self.handle_window_opened_or_changed(
                window,
                procs,
            ),
            Event::Other => Vec::new(),
        }
    }
}

} // verus!
