//! The window commands.
//!
//! Each command asks the host for one thing. The caller does the asking and
//! hands the answer in; the functions here decide what the command returns
//! and what becomes of the registry.

use crate::error::{Geometry, WindowError};
use crate::host::{panel_announcement, Announcement, HostReply};
use crate::ident::{window_id, window_id_prefix, window_id_text};
use crate::registry::{texts, without, WindowRegistry};
use vstd::prelude::*;

verus! {

/// A floating window that the host has built and the registry has listed.
#[derive(Debug, PartialEq, Eq)]
pub struct Created {
    /// The identifier of the window.
    pub id: String,
    /// The event to send to the window.
    pub announcement: Announcement,
}

/// The entries after a window asked for at `millis` was built, or was not.
pub open spec fn entries_after_create(
    entries: Seq<Seq<char>>,
    millis: int,
    built: bool,
) -> Seq<Seq<char>> {
    if built {
        entries.push(window_id_text(millis))
    } else {
        entries
    }
}

/// The entries after the host answered `reply` to a request to close `id`.
pub open spec fn entries_after_close(
    entries: Seq<Seq<char>>,
    id: Seq<char>,
    reply: HostReply,
) -> Seq<Seq<char>> {
    if reply is Done {
        without(entries, id)
    } else {
        entries
    }
}

/// What closing a window returns when the host answered `reply`.
pub open spec fn close_outcome(reply: HostReply) -> Result<(), WindowError> {
    match reply {
        HostReply::Done => Ok(()),
        HostReply::Missing => Err(WindowError::NotFound),
        HostReply::Failed(reason) => Err(WindowError::HostWindowClose(reason)),
    }
}

/// What setting `property` of a window returns when the host answered `reply`.
pub open spec fn update_outcome(property: Geometry, reply: HostReply) -> Result<
    (),
    WindowError,
> {
    match reply {
        HostReply::Done => Ok(()),
        HostReply::Missing => Err(WindowError::NotFound),
        HostReply::Failed(reason) => Err(WindowError::HostWindowUpdate(property, reason)),
    }
}

/// Finishes the creation of the window asked for at `millis`, once the host
/// has tried to build it under the identifier `window_id(millis)`.
///
/// Where the host built it, the identifier goes behind the entries of the
/// registry and comes back with the event to send to the new window. Where
/// the host failed, the registry stays as it was.
pub fn create_floating_window(
    registry: &mut WindowRegistry,
    millis: i64,
    built: Result<(), String>,
) -> (outcome: Result<Created, WindowError>)
    ensures
        final(registry)@ == entries_after_create(old(registry)@, millis as int, built is Ok),
        match built {
            Ok(_) => {
                &&& outcome matches Ok(created)
                &&& created.id@ == window_id_text(millis as int)
                &&& created.announcement.event@ == "window-type"@
                &&& created.announcement.payload@ == "floating-panel"@
            },
            Err(reason) => outcome == Err::<Created, WindowError>(
                WindowError::HostWindowCreation(reason),
            ),
        },
        outcome matches Ok(created) ==> {
            &&& window_id_prefix().is_prefix_of(created.id@)
            &&& final(registry)@.len() == old(registry)@.len() + 1
        },
{
    match built {
        Ok(_) => {
            registry.record(window_id(millis));
            Ok(Created { id: window_id(millis), announcement: panel_announcement() })
        },
        Err(reason) => Err(WindowError::HostWindowCreation(reason)),
    }
}

/// Finishes the closing of the window `id`, once the host has answered.
///
/// Where the host closed the window, every entry equal to `id` leaves the
/// registry. Where the host has no such window, or failed to close it, the
/// registry stays as it was. So an entry whose window the host lost without
/// being asked (the user closed it) stays listed for good, and a close that
/// failed can be tried again.
pub fn close_floating_window(registry: &mut WindowRegistry, id: &str, reply: HostReply) -> (outcome:
    Result<(), WindowError>)
    ensures
        outcome == close_outcome(reply),
        final(registry)@ == entries_after_close(old(registry)@, id@, reply),
{
    match reply {
        HostReply::Done => {
            registry.forget(id);
            Ok(())
        },
        HostReply::Missing => Err(WindowError::NotFound),
        HostReply::Failed(reason) => Err(WindowError::HostWindowClose(reason)),
    }
}

/// The identifiers in the registry, oldest first, as they stand: the host
/// is not asked which of the windows it still has.
pub fn list_floating_windows(registry: &WindowRegistry) -> (ids: Vec<String>)
    ensures
        texts(ids@) == registry@,
{
    registry.list()
}

/// Finishes a move of a window, once the host has answered.
pub fn update_window_position(reply: HostReply) -> (outcome: Result<(), WindowError>)
    ensures
        outcome == update_outcome(Geometry::Position, reply),
{
    match reply {
        HostReply::Done => Ok(()),
        HostReply::Missing => Err(WindowError::NotFound),
        HostReply::Failed(reason) => Err(
            WindowError::HostWindowUpdate(Geometry::Position, reason),
        ),
    }
}

/// Finishes a resize of a window, once the host has answered.
pub fn update_window_size(reply: HostReply) -> (outcome: Result<(), WindowError>)
    ensures
        outcome == update_outcome(Geometry::Size, reply),
{
    match reply {
        HostReply::Done => Ok(()),
        HostReply::Missing => Err(WindowError::NotFound),
        HostReply::Failed(reason) => Err(WindowError::HostWindowUpdate(Geometry::Size, reason)),
    }
}

} // verus!
