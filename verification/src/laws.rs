//! What holds of every run of window commands.

use crate::history::{built_in, entries_after_all, host_finds_only_its_windows, Call};
use crate::host::HostReply;
use crate::ident::window_id_text;
use crate::registry::without;
use vstd::prelude::*;

verus! {

/// The entries of `entries` that are in `watched`, in the order they had.
pub open spec fn only(entries: Seq<Seq<char>>, watched: Set<Seq<char>>) -> Seq<Seq<char>> {
    entries.filter(|id: Seq<char>| watched.contains(id))
}

/// Nothing equal to `id` is left once `id` was taken out.
pub proof fn lemma_without_leaves_none(entries: Seq<Seq<char>>, id: Seq<char>)
    ensures
        !without(entries, id).contains(id),
{
    let kept = without(entries, id);
    if kept.contains(id) {
        let i = choose|i: int| 0 <= i < kept.len() && kept[i] == id;
        entries.lemma_filter_pred(|entry: Seq<char>| entry != id, i);
    }
}

/// Taking out an identifier that is not watched changes nothing among the
/// watched ones.
proof fn lemma_only_after_without(
    entries: Seq<Seq<char>>,
    id: Seq<char>,
    watched: Set<Seq<char>>,
)
    requires
        !watched.contains(id),
    ensures
        only(without(entries, id), watched) == only(entries, watched),
    decreases entries.len(),
{
    reveal(Seq::filter);
    if entries.len() > 0 {
        let rest = entries.drop_last();
        let last = entries.last();
        assert(entries =~= rest.push(last));
        lemma_only_after_without(rest, id, watched);
        rest.lemma_filter_push(last, |entry: Seq<char>| entry != id);
        rest.lemma_filter_push(last, |id: Seq<char>| watched.contains(id));
        without(rest, id).lemma_filter_push(last, |id: Seq<char>| watched.contains(id));
    }
}

/// A window that was made and then closed is no longer listed, whatever
/// was done in between.
pub proof fn lemma_closed_window_is_not_listed(
    entries: Seq<Seq<char>>,
    millis: int,
    between: Seq<Call>,
)
    ensures
        ({
            let id = window_id_text(millis);
            let calls = (seq![Call::Create { millis, built: true }] + between).push(
                Call::Close { id, reply: HostReply::Done },
            );
            !entries_after_all(entries, calls).contains(id)
        }),
{
    let id = window_id_text(millis);
    let before = seq![Call::Create { millis, built: true }] + between;
    let calls = before.push(Call::Close { id, reply: HostReply::Done });
    assert(calls.drop_last() =~= before);
    lemma_without_leaves_none(entries_after_all(entries, before), id);
}

/// The identifiers that no call closed are listed in the order in which
/// their windows were made, whatever other windows were closed in between.
///
/// `watched` is any set of identifiers that no call of the run closed. Among
/// those, the registry after the run reads as the entries it began with
/// followed by the identifiers that the run returned, in that order.
pub proof fn lemma_listed_in_creation_order(
    entries: Seq<Seq<char>>,
    calls: Seq<Call>,
    watched: Set<Seq<char>>,
)
    requires
        forall|i: int|
            0 <= i < calls.len() && (#[trigger] calls[i]).closed() is Some ==> !watched.contains(
                calls[i].closed()->0,
            ),
    ensures
        only(entries_after_all(entries, calls), watched) == only(
            entries + built_in(calls),
            watched,
        ),
    decreases calls.len(),
{
    if calls.len() == 0 {
        assert(entries + built_in(calls) =~= entries);
    } else {
        let earlier = calls.drop_last();
        let last = calls.last();
        assert(forall|i: int| 0 <= i < earlier.len() ==> earlier[i] == calls[i]);
        lemma_listed_in_creation_order(entries, earlier, watched);
        let listed = entries_after_all(entries, earlier);
        let made = entries + built_in(earlier);
        match last {
            Call::Create { millis, built } => {
                if built {
                    let id = window_id_text(millis);
                    listed.lemma_filter_push(id, |id: Seq<char>| watched.contains(id));
                    made.lemma_filter_push(id, |id: Seq<char>| watched.contains(id));
                    assert(entries + built_in(calls) =~= made.push(id));
                }
            },
            Call::Close { id, reply } => {
                if reply is Done {
                    assert(calls[calls.len() - 1].closed() == Some(id));
                    lemma_only_after_without(listed, id, watched);
                }
            },
            _ => {},
        }
    }
}

/// No window that was made is lost: as long as no window is closed, the
/// registry holds one entry for each window made, in the order of making,
/// behind the entries it began with.
pub proof fn lemma_every_created_window_is_listed(entries: Seq<Seq<char>>, calls: Seq<Call>)
    requires
        forall|i: int| 0 <= i < calls.len() ==> (#[trigger] calls[i]).closed() is None,
    ensures
        entries_after_all(entries, calls) == entries + built_in(calls),
        entries_after_all(entries, calls).len() == entries.len() + built_in(calls).len(),
    decreases calls.len(),
{
    if calls.len() == 0 {
        assert(entries + built_in(calls) =~= entries);
    } else {
        let earlier = calls.drop_last();
        assert(forall|i: int| 0 <= i < earlier.len() ==> earlier[i] == calls[i]);
        lemma_every_created_window_is_listed(entries, earlier);
        assert(calls[calls.len() - 1].closed() is None);
        assert(entries_after_all(entries, calls) =~= entries + built_in(calls));
    }
}

/// The number of identifiers that a run returned is the number of its calls
/// that made a window.
pub proof fn lemma_built_in_counts_created(calls: Seq<Call>)
    ensures
        built_in(calls).len() == calls.filter(|call: Call| call.built() is Some).len(),
    decreases calls.len(),
{
    reveal(Seq::filter);
    if calls.len() > 0 {
        lemma_built_in_counts_created(calls.drop_last());
    }
}

/// A command on a window that the host never had fails as not found and
/// leaves the registry as it was.
///
/// The window `id` was not among those that the host had at the start
/// (`initial`), and no call before the `at`-th returned `id` for a new
/// window. Then, if the host finds only windows that it had at the start or
/// has built since, closing, moving or resizing `id` in the `at`-th call
/// fails as not found, and the registry is the same before and after it.
pub proof fn lemma_unknown_window_is_not_found(
    initial: Set<Seq<char>>,
    entries: Seq<Seq<char>>,
    calls: Seq<Call>,
    at: int,
    id: Seq<char>,
)
    requires
        host_finds_only_its_windows(initial, calls),
        0 <= at < calls.len(),
        calls[at].sought() == Some(id),
        !initial.contains(id),
        !built_in(calls.take(at)).contains(id),
    ensures
        calls[at].not_found(),
        entries_after_all(entries, calls.take(at + 1)) == entries_after_all(
            entries,
            calls.take(at),
        ),
{
    assert(!calls[at].found());
    assert(calls.take(at + 1).drop_last() =~= calls.take(at));
    assert(calls.take(at + 1).last() == calls[at]);
}

} // verus!
