//! What can go wrong with a window command, and how it is reported.

use vstd::prelude::*;
use vstd::string::StringExecFns;

verus! {

/// The part of a window's geometry that an update sets.
#[derive(Debug, Clone, Copy, PartialEq, Eq)]
pub enum Geometry {
    Position,
    Size,
}

/// Why a window command failed. A reason is the host's own message.
#[derive(Debug, PartialEq, Eq)]
pub enum WindowError {
    /// The host could not build the window.
    HostWindowCreation(String),
    /// The host has no window with the given identifier.
    NotFound,
    /// The host could not close the window.
    HostWindowClose(String),
    /// The host could not set the window's position or size.
    HostWindowUpdate(Geometry, String),
}

impl WindowError {
    /// The message shown to the caller.
    pub open spec fn text(self) -> Seq<char> {
        match self {
            WindowError::HostWindowCreation(reason) => "Failed to create window: "@ + reason@,
            WindowError::NotFound => "Window not found"@,
            WindowError::HostWindowClose(reason) => "Failed to close window: "@ + reason@,
            WindowError::HostWindowUpdate(Geometry::Position, reason) =>
                "Failed to update position: "@ + reason@,
            WindowError::HostWindowUpdate(Geometry::Size, reason) =>
                "Failed to update size: "@ + reason@,
        }
    }

    /// The message shown to the caller.
    pub fn message(&self) -> (message: String)
        ensures
            message@ == self.text(),
    {
        match self {
            WindowError::HostWindowCreation(reason) => {
                "Failed to create window: ".to_owned().concat(reason.as_str())
            },
            WindowError::NotFound => "Window not found".to_owned(),
            WindowError::HostWindowClose(reason) => {
                "Failed to close window: ".to_owned().concat(reason.as_str())
            },
            WindowError::HostWindowUpdate(Geometry::Position, reason) => {
                "Failed to update position: ".to_owned().concat(reason.as_str())
            },
            WindowError::HostWindowUpdate(Geometry::Size, reason) => {
                "Failed to update size: ".to_owned().concat(reason.as_str())
            },
        }
    }
}

} // verus!
