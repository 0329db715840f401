//! What the window host is asked for, and what it answers.
//!
//! The host builds, moves, resizes and closes the windows. This crate only
//! decides what to ask and what follows from the answer.

use vstd::prelude::*;

verus! {

/// How a floating panel is built. Lengths are in logical units.
#[derive(Debug, PartialEq, Eq)]
pub struct PanelOptions {
    pub url: String,
    pub title: String,
    pub width: u32,
    pub height: u32,
    pub x: i32,
    pub y: i32,
    pub resizable: bool,
    pub decorations: bool,
    pub always_on_top: bool,
    pub skip_taskbar: bool,
}

/// The settings of every floating panel: 400 by 300 at (100, 100), resizable,
/// decorated, above the other windows, and shown in the task bar.
pub fn floating_panel_options() -> (options: PanelOptions)
    ensures
        options.url@ == "index.html"@,
        options.title@ == "Floating Panel"@,
        options.width == 400,
        options.height == 300,
        options.x == 100,
        options.y == 100,
        options.resizable,
        options.decorations,
        options.always_on_top,
        !options.skip_taskbar,
{
    PanelOptions {
        url: "index.html".to_owned(),
        title: "Floating Panel".to_owned(),
        width: 400,
        height: 300,
        x: 100,
        y: 100,
        resizable: true,
        decorations: true,
        always_on_top: true,
        skip_taskbar: false,
    }
}

/// An event sent once to a window that has just been built.
#[derive(Debug, PartialEq, Eq)]
pub struct Announcement {
    pub event: String,
    pub payload: String,
}

/// The event that tells a new window that it is a floating panel.
pub fn panel_announcement() -> (announcement: Announcement)
    ensures
        announcement.event@ == "window-type"@,
        announcement.payload@ == "floating-panel"@,
{
    Announcement { event: "window-type".to_owned(), payload: "floating-panel".to_owned() }
}

/// What the host answered when asked to act on the window with some
/// identifier.
#[derive(Debug, PartialEq, Eq)]
pub enum HostReply {
    /// The host has the window and did what was asked.
    Done,
    /// The host has no window with that identifier.
    Missing,
    /// The host has the window but failed, for the reason it gives.
    Failed(String),
}

} // verus!
