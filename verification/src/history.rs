//! Runs of window commands, told as the list of calls that finished.
//!
//! The registry is changed under a lock, so whatever the order in which
//! commands came in, their changes took place one after the other. A run
//! is that order.

use crate::error::{Geometry, WindowError};
use crate::host::HostReply;
use crate::ident::window_id_text;
use crate::service::{close_outcome, entries_after_close, entries_after_create, update_outcome};
use vstd::prelude::*;

verus! {

/// One finished command, with what the host answered.
pub enum Call {
    /// A window was asked for at `millis`; `built` says whether the host
    /// built it.
    Create { millis: int, built: bool },
    /// The window `id` was to be closed.
    Close { id: Seq<char>, reply: HostReply },
    /// The registry was read.
    List,
    /// The window `id` was to be moved.
    Reposition { id: Seq<char>, reply: HostReply },
    /// The window `id` was to be resized.
    Resize { id: Seq<char>, reply: HostReply },
}

impl Call {
    /// The entries of the registry after this call.
    pub open spec fn entries_after(self, entries: Seq<Seq<char>>) -> Seq<Seq<char>> {
        match self {
            Call::Create { millis, built } => entries_after_create(entries, millis, built),
            Call::Close { id, reply } => entries_after_close(entries, id, reply),
            _ => entries,
        }
    }

    /// The identifier that this call returned for a new window, if it made
    /// one.
    pub open spec fn built(self) -> Option<Seq<char>> {
        match self {
            Call::Create { millis, built } if built => Some(window_id_text(millis)),
            _ => None,
        }
    }

    /// The identifier of the window that this call closed, if it closed one.
    pub open spec fn closed(self) -> Option<Seq<char>> {
        match self {
            Call::Close { id, reply } if reply is Done => Some(id),
            _ => None,
        }
    }

    /// The identifier that the host was asked to find, if it was asked.
    pub open spec fn sought(self) -> Option<Seq<char>> {
        match self {
            Call::Close { id, .. } => Some(id),
            Call::Reposition { id, .. } => Some(id),
            Call::Resize { id, .. } => Some(id),
            _ => None,
        }
    }

    /// Whether the host found the window that it was asked to find.
    pub open spec fn found(self) -> bool {
        match self {
            Call::Close { reply, .. } => !(reply is Missing),
            Call::Reposition { reply, .. } => !(reply is Missing),
            Call::Resize { reply, .. } => !(reply is Missing),
            _ => false,
        }
    }

    /// Whether the command failed because the window was not found.
    pub open spec fn not_found(self) -> bool {
        match self {
            Call::Close { reply, .. } => close_outcome(reply) == Err::<(), WindowError>(
                WindowError::NotFound,
            ),
            Call::Reposition { reply, .. } => update_outcome(Geometry::Position, reply)
                == Err::<(), WindowError>(WindowError::NotFound),
            Call::Resize { reply, .. } => update_outcome(Geometry::Size, reply) == Err::<
                (),
                WindowError,
            >(WindowError::NotFound),
            _ => false,
        }
    }
}

/// The entries of the registry after `calls`, made in order on `entries`.
pub open spec fn entries_after_all(entries: Seq<Seq<char>>, calls: Seq<Call>) -> Seq<Seq<char>>
    decreases calls.len(),
{
    if calls.len() == 0 {
        entries
    } else {
        calls.last().entries_after(entries_after_all(entries, calls.drop_last()))
    }
}

/// The identifiers that `calls` returned for new windows, in the order of
/// their making.
pub open spec fn built_in(calls: Seq<Call>) -> Seq<Seq<char>>
    decreases calls.len(),
{
    if calls.len() == 0 {
        Seq::empty()
    } else {
        match calls.last().built() {
            Some(id) => built_in(calls.drop_last()).push(id),
            None => built_in(calls.drop_last()),
        }
    }
}

/// Whether, all through `calls`, the host found only windows that it had at
/// the start (`initial`) or had built in an earlier call.
pub open spec fn host_finds_only_its_windows(initial: Set<Seq<char>>, calls: Seq<Call>) -> bool {
    forall|i: int|
        0 <= i < calls.len() && (#[trigger] calls[i]).found() ==> {
            ||| initial.contains(calls[i].sought()->0)
            ||| built_in(calls.take(i)).contains(calls[i].sought()->0)
        }
}

} // verus!
