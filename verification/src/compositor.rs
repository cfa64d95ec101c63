//! The library's model of the compositor interface: windows as the event
//! stream reports them, the lifecycle events this daemon reacts to, and the
//! discrete commands it sends back. The socket transport that carries events
//! and commands lives outside the library.

use vstd::prelude::*;

verus! {

/// A compositor-managed window: a stable id, an optional application id, an
/// optional title, and the optional id of the owning process.
#[derive(Debug, Clone)]
pub struct Window {
    pub id: u64,
    pub app_id: Option<String>,
    pub title: Option<String>,
    pub pid: Option<u32>,
}

/// A window lifecycle event from the compositor's stream. `Other` stands in
/// for every event this daemon does not act on.
#[derive(Debug, Clone)]
pub enum Event {
    WindowsChanged { windows: Vec<Window> },
    WindowOpenedOrChanged { window: Window },
    WindowClosed { id: u64 },
    Other,
}

/// A single fire-and-forget action request to the compositor. Column
/// placement is a sequence of relative single-step moves, since the control
/// surface exposes no absolute jump.
#[derive(Debug, Clone, Copy, PartialEq, Eq, Structural)]
pub enum Command {
    MoveColumnToFirst,
    MoveColumnRight,
    ConsumeOrExpelWindowRight { id: u64 },
    ConsumeOrExpelWindowLeft { id: u64 },
    CloseWindow { id: u64 },
    SetColumnWidth { pixels: i32 },
}

} // verus!
