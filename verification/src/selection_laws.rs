//! What holds of every selection.

use crate::clock::Duration;
use crate::clock::Instant;
use crate::limits::OWNER_CHANGE_GRACE;
use crate::selection::ReadersGone;
use crate::selection::RemovedTransfer;
use crate::selection::Screen;
use crate::selection::SetupRequest;
use crate::selection::Swept;
use crate::selection::XWmSelection;
use crate::x11::Atom;
use crate::x11::Atoms;
use crate::x11::X11Window;
use vstd::prelude::*;

verus! {

/// Sweeping again at the same moment finds nothing to drop.
pub proof fn law_second_sweep_finds_nothing<P, I, C>(
    before: XWmSelection<P, I, C>,
    after: XWmSelection<P, I, C>,
    now: Instant,
    timeout: Duration,
    gone: ReadersGone,
)
    requires
        before.sweeps_to(after, now, timeout, gone),
    ensures
        after.stale_pending(now, timeout, gone) =~= Set::empty(),
        after.stale_incoming(now, timeout, gone) =~= Set::empty(),
        after.stale_outgoing(now, timeout) =~= Set::empty(),
{
}

/// An incoming transfer that is still moving is left to finish, though the selection has changed
/// hands: if its reader is there and it has moved within both the timeout and the grace, a sweep
/// keeps it as it is.
pub proof fn law_moving_transfer_is_left_to_finish<P, I, C>(
    before: XWmSelection<P, I, C>,
    after: XWmSelection<P, I, C>,
    now: Instant,
    timeout: Duration,
    gone: ReadersGone,
    window: X11Window,
)
    requires
        before.sweeps_to(after, now, timeout, gone),
        before.incoming@.contains_key(window),
        !gone.incoming@.contains(window),
        now.since(before.incoming@[window].last_activity) < timeout,
        now.since(before.incoming@[window].last_activity) < OWNER_CHANGE_GRACE,
    ensures
        after.incoming@.contains_key(window),
        after.incoming@[window] == before.incoming@[window],
{
}

/// The grace concerns the transfers of a previous owner that are waiting on it, and no others: an
/// incoming transfer answered by the present owner, or not waiting on its owner, is kept though it
/// has been idle for longer, as long as it has moved within the timeout and its reader is there.
pub proof fn law_grace_is_for_previous_owners<P, I, C>(
    before: XWmSelection<P, I, C>,
    after: XWmSelection<P, I, C>,
    now: Instant,
    timeout: Duration,
    gone: ReadersGone,
    window: X11Window,
)
    requires
        before.sweeps_to(after, now, timeout, gone),
        before.incoming@.contains_key(window),
        !gone.incoming@.contains(window),
        now.since(before.incoming@[window].last_activity) < timeout,
        before.incoming@[window].generation == before.generation
            || !before.incoming@[window]@.awaits_owner(),
    ensures
        after.incoming@.contains_key(window),
        after.incoming@[window] == before.incoming@[window],
{
}

/// A longer timeout drops no more than a shorter one.
pub proof fn law_longer_timeout_drops_no_more<P, I, C>(
    selection: XWmSelection<P, I, C>,
    now: Instant,
    shorter: Duration,
    longer: Duration,
    gone: ReadersGone,
)
    requires
        shorter <= longer,
    ensures
        selection.stale_pending(now, longer, gone).subset_of(
            selection.stale_pending(now, shorter, gone),
        ),
        selection.stale_incoming(now, longer, gone).subset_of(
            selection.stale_incoming(now, shorter, gone),
        ),
        selection.stale_outgoing(now, longer).subset_of(selection.stale_outgoing(now, shorter)),
{
}

/// What a sweep would drop now, a later one would drop too, unless it moves in between.
pub proof fn law_later_sweep_drops_no_less<P, I, C>(
    selection: XWmSelection<P, I, C>,
    now: Instant,
    later: Instant,
    timeout: Duration,
    gone: ReadersGone,
)
    requires
        now.nanos <= later.nanos,
    ensures
        selection.stale_pending(now, timeout, gone).subset_of(
            selection.stale_pending(later, timeout, gone),
        ),
        selection.stale_incoming(now, timeout, gone).subset_of(
            selection.stale_incoming(later, timeout, gone),
        ),
        selection.stale_outgoing(now, timeout).subset_of(selection.stale_outgoing(later, timeout)),
{
}

/// No transfer that the event loop may hold a source of gets lost in a sweep: each one is either
/// still there afterwards or has been handed out, and never both.
pub proof fn law_sweep_loses_no_transfer<P, I, C>(
    before: XWmSelection<P, I, C>,
    after: XWmSelection<P, I, C>,
    swept: Swept<I, C>,
    now: Instant,
    timeout: Duration,
    gone: ReadersGone,
    window: X11Window,
)
    requires
        before.sweeps_to(after, now, timeout, gone),
        crate::selection::taken_out(
            swept.incoming@,
            before.incoming@,
            before.stale_incoming(now, timeout, gone),
        ),
        crate::selection::taken_out(
            swept.outgoing@,
            before.outgoing@,
            before.stale_outgoing(now, timeout),
        ),
    ensures
        before.incoming@.contains_key(window) ==> (after.incoming@.contains_key(window) <==> !exists|
            i: int,
        |
            0 <= i < swept.incoming@.len() && swept.incoming@[i] == (
                window,
                before.incoming@[window],
            )),
        before.outgoing@.contains_key(window) ==> (after.outgoing@.contains_key(window) <==> !exists|
            i: int,
        |
            0 <= i < swept.outgoing@.len() && swept.outgoing@[i] == (
                window,
                before.outgoing@[window],
            )),
{
    if before.stale_incoming(now, timeout, gone).contains(window) {
        let i = choose|i: int|
            0 <= i < swept.incoming@.len() && (#[trigger] swept.incoming@[i]).0 == window;
        assert(swept.incoming@[i] == (window, before.incoming@[window]));
    }
    if before.stale_outgoing(now, timeout).contains(window) {
        let i = choose|i: int|
            0 <= i < swept.outgoing@.len() && (#[trigger] swept.outgoing@[i]).0 == window;
        assert(swept.outgoing@[i] == (window, before.outgoing@[window]));
    }
}

/// A window that is no more is forgotten: a transfer goes through one window and is of one kind,
/// so once it is taken out none goes through that window, and the window is not one of the
/// selection's own unless it is that of the selection itself.
pub proof fn law_destroyed_window_is_forgotten<P, I, C>(
    before: XWmSelection<P, I, C>,
    after: XWmSelection<P, I, C>,
    window: X11Window,
)
    requires
        before.loses_to(after, window),
        !(before.incoming@.contains_key(window) && before.outgoing@.contains_key(window)),
        !(before.incoming@.contains_key(window) && before.pending_transfers@.contains_key(window)),
        !(before.outgoing@.contains_key(window) && before.pending_transfers@.contains_key(window)),
    ensures
        after.transfer_through(window) is None,
        after.owns(window) <==> after.window == window,
{
}

/// The transfers that go through other windows are not touched when a window is destroyed.
pub proof fn law_other_windows_keep_their_transfers<P, I, C>(
    before: XWmSelection<P, I, C>,
    after: XWmSelection<P, I, C>,
    window: X11Window,
    other: X11Window,
)
    requires
        before.loses_to(after, window),
        window != other,
    ensures
        after.transfer_through(other) == before.transfer_through(other),
        after.owns(other) == before.owns(other),
{
}

/// Which outgoing transfers a sweep drops: those that have not moved for the timeout, and no
/// others, whatever else they hold. What is kept is kept as it was, and nothing is added.
pub proof fn law_sweep_of_outgoing<P, I, C>(
    before: XWmSelection<P, I, C>,
    after: XWmSelection<P, I, C>,
    now: Instant,
    timeout: Duration,
    gone: ReadersGone,
    window: X11Window,
)
    requires
        before.sweeps_to(after, now, timeout, gone),
    ensures
        after.outgoing@.contains_key(window) <==> {
            &&& before.outgoing@.contains_key(window)
            &&& timeout > 0
            &&& now.nanos - before.outgoing@[window].last_activity.nanos < timeout
        },
        after.outgoing@.contains_key(window) ==> after.outgoing@[window] == before.outgoing@[window],
{
}

/// Which pending transfers a sweep drops: those that have waited for the timeout and those whose
/// reader has left, and no others. What is kept is kept as it was, and nothing is added.
pub proof fn law_sweep_of_pending<P, I, C>(
    before: XWmSelection<P, I, C>,
    after: XWmSelection<P, I, C>,
    now: Instant,
    timeout: Duration,
    gone: ReadersGone,
    window: X11Window,
)
    requires
        before.sweeps_to(after, now, timeout, gone),
    ensures
        after.pending_transfers@.contains_key(window) <==> {
            &&& before.pending_transfers@.contains_key(window)
            &&& timeout > 0
            &&& now.nanos - before.pending_transfers@[window].since.nanos < timeout
            &&& !gone.pending@.contains(window)
        },
        after.pending_transfers@.contains_key(window) ==> after.pending_transfers@[window]
            == before.pending_transfers@[window],
{
}

/// Which incoming transfers a sweep drops: those that have not moved for the timeout; those whose
/// reader has left; and, once the selection has changed hands, those of an earlier owner that are
/// waiting on it for a chunk and have not moved for a second. No others, whatever else they hold.
/// What is kept is kept as it was, and nothing is added.
pub proof fn law_sweep_of_incoming<P, I, C>(
    before: XWmSelection<P, I, C>,
    after: XWmSelection<P, I, C>,
    now: Instant,
    timeout: Duration,
    gone: ReadersGone,
    window: X11Window,
)
    requires
        before.sweeps_to(after, now, timeout, gone),
    ensures
        after.incoming@.contains_key(window) <==> {
            let transfer = before.incoming@[window];
            let idle = now.nanos - transfer.last_activity.nanos;
            &&& before.incoming@.contains_key(window)
            &&& timeout > 0
            &&& idle < timeout
            &&& !gone.incoming@.contains(window)
            &&& {
                ||| transfer.generation == before.generation
                ||| !transfer.delete_sent && !transfer.awaiting_chunk
                ||| idle < 1_000_000_000
            }
        },
        after.incoming@.contains_key(window) ==> after.incoming@[window] == before.incoming@[window],
{
}

/// A sweep touches nothing of the selection but its transfers, and says that some are left exactly
/// if some table still has an entry.
pub proof fn law_sweep_touches_transfers_only<P, I, C>(
    before: XWmSelection<P, I, C>,
    after: XWmSelection<P, I, C>,
    now: Instant,
    timeout: Duration,
    gone: ReadersGone,
)
    requires
        before.sweeps_to(after, now, timeout, gone),
    ensures
        after.atom == before.atom,
        after.atoms == before.atoms,
        after.window == before.window,
        after.owner == before.owner,
        after.generation == before.generation,
        after.mime_types == before.mime_types,
        after.timestamp == before.timestamp,
        after.in_flight() <==> exists|window: X11Window| #[trigger]
            after.incoming@.contains_key(window) || after.outgoing@.contains_key(window)
                || after.pending_transfers@.contains_key(window),
{
    lemma_in_flight(after);
}

proof fn lemma_in_flight<P, I, C>(selection: XWmSelection<P, I, C>)
    ensures
        selection.in_flight() <==> exists|window: X11Window| #[trigger]
            selection.incoming@.contains_key(window) || selection.outgoing@.contains_key(window)
                || selection.pending_transfers@.contains_key(window),
{
    if selection.in_flight() {
        if !selection.incoming@.is_empty() {
            let window = choose|window: X11Window| selection.incoming@.contains_key(window);
            assert(!(selection.incoming@ =~= Map::empty()));
            assert(selection.incoming@.contains_key(window));
        } else if !selection.outgoing@.is_empty() {
            let window = choose|window: X11Window| selection.outgoing@.contains_key(window);
            assert(!(selection.outgoing@ =~= Map::empty()));
            assert(selection.outgoing@.contains_key(window));
            assert(!selection.incoming@.contains_key(window));
        } else {
            let window = choose|window: X11Window| selection.pending_transfers@.contains_key(window);
            assert(!(selection.pending_transfers@ =~= Map::empty()));
            assert(selection.pending_transfers@.contains_key(window));
            assert(!selection.incoming@.contains_key(window));
        }
    }
}

/// What a sweep hands out is what it dropped, each transfer once: every entry handed out was in the
/// table under its window, as it is, and is there no longer; no window comes twice.
pub proof fn law_sweep_hands_out_what_it_dropped<P, I, C>(
    before: XWmSelection<P, I, C>,
    after: XWmSelection<P, I, C>,
    swept: Swept<I, C>,
    now: Instant,
    timeout: Duration,
    gone: ReadersGone,
    i: int,
    j: int,
)
    requires
        before.sweeps_to(after, now, timeout, gone),
        crate::selection::taken_out(
            swept.incoming@,
            before.incoming@,
            before.stale_incoming(now, timeout, gone),
        ),
        crate::selection::taken_out(
            swept.outgoing@,
            before.outgoing@,
            before.stale_outgoing(now, timeout),
        ),
    ensures
        0 <= i < swept.incoming@.len() ==> {
            let (window, transfer) = swept.incoming@[i];
            &&& before.incoming@.contains_key(window)
            &&& before.incoming@[window] == transfer
            &&& !after.incoming@.contains_key(window)
        },
        0 <= i < swept.outgoing@.len() ==> {
            let (window, transfer) = swept.outgoing@[i];
            &&& before.outgoing@.contains_key(window)
            &&& before.outgoing@[window] == transfer
            &&& !after.outgoing@.contains_key(window)
        },
        0 <= i < j < swept.incoming@.len() ==> swept.incoming@[i].0 != swept.incoming@[j].0,
        0 <= i < j < swept.outgoing@.len() ==> swept.outgoing@[i].0 != swept.outgoing@[j].0,
{
}

/// A window that is destroyed takes one transfer with it, and which one depends on the tables
/// alone: the incoming one under that window if there is one, or else the outgoing one, or else the
/// pending one. That entry is handed back as it was and leaves its table; every other entry of
/// every table stays as it was. Nothing is handed back exactly if no table has the window.
pub proof fn law_destroyed_window_takes_its_transfer<P, I, C>(
    before: XWmSelection<P, I, C>,
    after: XWmSelection<P, I, C>,
    removed: Option<RemovedTransfer<P, I, C>>,
    window: X11Window,
    other: X11Window,
)
    requires
        before.loses_to(after, window),
        removed == before.transfer_through(window),
    ensures
        ({
            let incoming = before.incoming@.contains_key(window);
            let outgoing = before.outgoing@.contains_key(window);
            let pending = before.pending_transfers@.contains_key(window);
            &&& removed is None <==> !incoming && !outgoing && !pending
            &&& incoming ==> removed == Some(
                RemovedTransfer::<P, I, C>::Incoming(before.incoming@[window]),
            )
            &&& outgoing && !incoming ==> removed == Some(
                RemovedTransfer::<P, I, C>::Outgoing(before.outgoing@[window]),
            )
            &&& pending && !incoming && !outgoing ==> removed == Some(
                RemovedTransfer::<P, I, C>::Pending(before.pending_transfers@[window]),
            )
            &&& !after.incoming@.contains_key(window)
            &&& after.outgoing@.contains_key(window) <==> outgoing && incoming
            &&& after.pending_transfers@.contains_key(window) <==> pending && (incoming || outgoing)
            // No two tables had the window: none has it now.
            &&& !(incoming && outgoing) && !(incoming && pending) && !(outgoing && pending) ==> {
                &&& !after.incoming@.contains_key(window)
                &&& !after.outgoing@.contains_key(window)
                &&& !after.pending_transfers@.contains_key(window)
            }
        }),
        other != window || (before.outgoing@.contains_key(other) && before.incoming@.contains_key(
            window,
        )) ==> {
            &&& after.outgoing@.contains_key(other) == before.outgoing@.contains_key(other)
            &&& after.outgoing@[other] == before.outgoing@[other]
        },
        other != window ==> {
            &&& after.incoming@.contains_key(other) == before.incoming@.contains_key(other)
            &&& after.incoming@[other] == before.incoming@[other]
        },
        other != window || before.incoming@.contains_key(window) || before.outgoing@.contains_key(
            window,
        ) ==> {
            &&& after.pending_transfers@.contains_key(other)
                == before.pending_transfers@.contains_key(other)
            &&& after.pending_transfers@[other] == before.pending_transfers@[other]
        },
        after.atom == before.atom,
        after.atoms == before.atoms,
        after.window == before.window,
        after.owner == before.owner,
        after.generation == before.generation,
        after.mime_types == before.mime_types,
        after.timestamp == before.timestamp,
{
}

/// A window is one of the selection's own exactly if it is that of the selection itself or has an
/// incoming or a pending transfer; a requestor's window, with an outgoing one, is not.
pub proof fn law_own_windows<P, I, C>(selection: XWmSelection<P, I, C>, window: X11Window)
    ensures
        selection.owns(window) <==> window == selection.window || selection.incoming@.dom().contains(
            window,
        ) || selection.pending_transfers@.dom().contains(window),
{
}

/// A new selection has no owner, no types, no transfers and no time, and is the one asked for.
pub proof fn law_new_selection_is_empty<P, I, C>(
    selection: XWmSelection<P, I, C>,
    atoms: Atoms,
    atom: Atom,
    own: X11Window,
    window: X11Window,
)
    requires
        selection.is_new(atoms, atom, own),
    ensures
        selection.atom == atom,
        selection.atoms == atoms,
        selection.window == own,
        selection.owner == 0,
        selection.generation == 0,
        selection.mime_types@.len() == 0,
        selection.timestamp == 0,
        !selection.incoming@.contains_key(window),
        !selection.outgoing@.contains_key(window),
        !selection.pending_transfers@.contains_key(window),
        selection.owns(window) <==> window == own,
{
    lemma_in_flight(selection);
    assert(!(selection.incoming@.contains_key(window) || selection.outgoing@.contains_key(window)
        || selection.pending_transfers@.contains_key(window)));
}

/// A selection is set up in a fixed order: its window is made first, as a child of the root and of
/// the root's depth and visual, told of property changes; last, it is told of every change of owner
/// of that selection. In between, and for the clipboard alone, it takes the clipboard manager
/// selection.
pub proof fn law_setup_order<P, I, C>(
    screen: Screen,
    atoms: Atoms,
    atom: Atom,
    window: X11Window,
)
    ensures
        ({
            let requests = XWmSelection::<P, I, C>::setup_requests(screen, atoms, atom, window);
            &&& requests.len() == if atom == atoms.CLIPBOARD {
                3int
            } else {
                2
            }
            &&& requests[0] matches SetupRequest::CreateWindow(made)
            &&& made.window == window
            &&& made.parent == screen.root
            &&& made.depth == screen.root_depth
            &&& made.visual == screen.root_visual
            &&& made.x == 0 && made.y == 0
            &&& made.width == 10 && made.height == 10
            &&& made.border_width == 0
            &&& made.class == 1
            &&& made.event_mask == 4194304
            &&& requests[requests.len() - 1] matches SetupRequest::SelectSelectionInput(watched)
            &&& watched.window == window
            &&& watched.selection == atom
            &&& watched.event_mask == 7
            &&& atom == atoms.CLIPBOARD ==> {
                &&& requests[1] matches SetupRequest::SetSelectionOwner(managed)
                &&& managed.owner == window
                &&& managed.selection == atoms.CLIPBOARD_MANAGER
                &&& managed.time == 0
            }
        }),
{
}

} // verus!
