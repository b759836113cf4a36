//! One selection and all its transfers.

use crate::clock::Duration;
use crate::clock::Instant;
use crate::incoming::IncomingTransfer;
use crate::outgoing::OutgoingTransfer;
use crate::pending::PendingTransfer;
use crate::window_list::WindowList;
use crate::x11::Atom;
use crate::x11::Atoms;
use crate::x11::Timestamp;
use crate::x11::X11Window;
use std::collections::HashMap;
use std::collections::HashSet;
use vstd::prelude::*;
use x11rb::protocol::xfixes::SelectionEventMask;
use x11rb::protocol::xproto::EventMask;
use x11rb::protocol::xproto::WindowClass;

verus! {

/// A selection that both X and Wayland have.
#[derive(Clone, Copy, Debug, PartialEq, Eq, Structural)]
pub enum SelectionTarget {
    Clipboard,
    Primary,
}

/// One selection and the transfers in and out of it, each under the window that it goes through.
/// `P` and `I` are what is held for the reader of a pending and of an incoming transfer, `C` what is
/// held for an outgoing one.
pub struct XWmSelection<P, I, C> {
    pub atom: Atom,
    pub atoms: Atoms,
    pub window: X11Window,
    pub owner: X11Window,
    /// Bumped on every ownership change the window manager hears of.
    pub generation: u64,
    pub mime_types: Vec<String>,
    pub timestamp: Timestamp,
    pub pending_transfers: HashMap<X11Window, PendingTransfer<P>>,
    pub incoming: HashMap<X11Window, IncomingTransfer<I>>,
    pub outgoing: HashMap<X11Window, OutgoingTransfer<C>>,
}

/// The transfers whose readers were found to have closed their end, by window.
pub struct ReadersGone {
    pub pending: HashSet<X11Window>,
    pub incoming: HashSet<X11Window>,
}

/// What a sweep took out of a selection, by window, and whether it left anything.
pub struct Swept<I, C> {
    pub incoming: Vec<(X11Window, IncomingTransfer<I>)>,
    pub outgoing: Vec<(X11Window, OutgoingTransfer<C>)>,
    /// Some transfer is left.
    pub active: bool,
}

/// A transfer that left a selection with its window.
pub enum RemovedTransfer<P, I, C> {
    Incoming(IncomingTransfer<I>),
    Outgoing(OutgoingTransfer<C>),
    Pending(PendingTransfer<P>),
}

/// What a selection's window takes from the screen it is made on.
#[derive(Clone, Copy, Debug, PartialEq, Eq, Structural)]
pub struct Screen {
    pub root: X11Window,
    pub root_depth: u8,
    pub root_visual: u32,
}

/// A `CreateWindow` request.
#[derive(Clone, Copy, Debug, PartialEq, Eq, Structural)]
pub struct CreateWindow {
    pub depth: u8,
    pub window: X11Window,
    pub parent: X11Window,
    pub x: i16,
    pub y: i16,
    pub width: u16,
    pub height: u16,
    pub border_width: u16,
    pub class: u16,
    pub visual: u32,
    pub event_mask: u32,
}

/// A `SetSelectionOwner` request.
#[derive(Clone, Copy, Debug, PartialEq, Eq, Structural)]
pub struct SetSelectionOwner {
    pub owner: X11Window,
    pub selection: Atom,
    pub time: Timestamp,
}

/// An XFixes `SelectSelectionInput` request.
#[derive(Clone, Copy, Debug, PartialEq, Eq, Structural)]
pub struct SelectSelectionInput {
    pub window: X11Window,
    pub selection: Atom,
    pub event_mask: u32,
}

/// A request that sets up a selection.
#[derive(Clone, Copy, Debug, PartialEq, Eq, Structural)]
pub enum SetupRequest {
    CreateWindow(CreateWindow),
    SetSelectionOwner(SetSelectionOwner),
    SelectSelectionInput(SelectSelectionInput),
}

/// `x11rb::NONE`. Trusted: the window that is none is zero.
#[verifier::external_body]
fn no_window() -> (window: X11Window)
    ensures
        window == 0,
{
    x11rb::NONE
}

/// `x11rb::CURRENT_TIME`. Trusted: the time that stands for now is zero.
#[verifier::external_body]
fn current_time() -> (time: Timestamp)
    ensures
        time == 0,
{
    x11rb::CURRENT_TIME
}

/// `x11rb::protocol::xproto::WindowClass::INPUT_OUTPUT` as a number. Trusted: it is one.
#[verifier::external_body]
fn input_output_class() -> (class: u16)
    ensures
        class == 1,
{
    WindowClass::INPUT_OUTPUT.into()
}

/// `x11rb::protocol::xproto::EventMask::PROPERTY_CHANGE` as bits. Trusted: it is bit 22.
#[verifier::external_body]
fn property_change_mask() -> (mask: u32)
    ensures
        mask == 0x40_0000,
{
    EventMask::PROPERTY_CHANGE.into()
}

/// `x11rb::protocol::xfixes::SelectionEventMask::SET_SELECTION_OWNER` as bits. Trusted: it is bit
/// 0.
#[verifier::external_body]
fn owner_set_mask() -> (mask: u32)
    ensures
        mask == 1,
{
    SelectionEventMask::SET_SELECTION_OWNER.into()
}

/// `x11rb::protocol::xfixes::SelectionEventMask::SELECTION_WINDOW_DESTROY` as bits. Trusted: it is
/// bit 1.
#[verifier::external_body]
fn owner_window_destroyed_mask() -> (mask: u32)
    ensures
        mask == 2,
{
    SelectionEventMask::SELECTION_WINDOW_DESTROY.into()
}

/// `x11rb::protocol::xfixes::SelectionEventMask::SELECTION_CLIENT_CLOSE` as bits. Trusted: it is
/// bit 2.
#[verifier::external_body]
fn owner_client_closed_mask() -> (mask: u32)
    ensures
        mask == 4,
{
    SelectionEventMask::SELECTION_CLIENT_CLOSE.into()
}

/// Whether `taken` is what `map` holds under `windows`: each entry once, and no other.
pub open spec fn taken_out<V>(
    taken: Seq<(X11Window, V)>,
    map: Map<X11Window, V>,
    windows: Set<X11Window>,
) -> bool {
    &&& forall|i: int|
        0 <= i < taken.len() ==> windows.contains((#[trigger] taken[i]).0) && map.contains_key(
            taken[i].0,
        ) && taken[i].1 == map[taken[i].0]
    &&& forall|i: int, j: int|
        0 <= i < j < taken.len() ==> (#[trigger] taken[i]).0 != (#[trigger] taken[j]).0
    &&& forall|window: X11Window|
        windows.contains(window) ==> exists|i: int|
            0 <= i < taken.len() && (#[trigger] taken[i]).0 == window
}

/// Takes the entries of the listed windows out of `map`.
fn take_out<V>(map: &mut HashMap<X11Window, V>, list: WindowList) -> (taken: Vec<(X11Window, V)>)
    requires
        list@.no_duplicates(),
        list@.to_set().subset_of(old(map)@.dom()),
    ensures
        final(map)@ == old(map)@.remove_keys(list@.to_set()),
        taken_out(taken@, old(map)@, list@.to_set()),
{
    broadcast use vstd::std_specs::hash::group_hash_axioms;

    let mut list = list;
    let mut taken: Vec<(X11Window, V)> = Vec::new();
    let ghost all = list@;
    let ghost before = map@;
    proof {
        assert(all.skip(all.len() as int).to_set() =~= Set::empty());
        assert(before.remove_keys(Set::empty()) =~= before);
    }
    loop
        invariant
            all.no_duplicates(),
            all.to_set().subset_of(before.dom()),
            list@.len() <= all.len(),
            list@ == all.take(list@.len() as int),
            map@ == before.remove_keys(all.skip(list@.len() as int).to_set()),
            taken_out(taken@, before, all.skip(list@.len() as int).to_set()),
        ensures
            list@.len() == 0,
        decreases list@.len(),
    {
        let ghost held = list@;
        match list.pop() {
            Some(window) => {
                let ghost left = list@;
                let ghost out = all.skip(held.len() as int).to_set();
                proof {
                    assert(held[left.len() as int] == window);
                    assert(all[left.len() as int] == window);
                    assert(all.to_set().contains(window));
                    assert(left =~= all.take(left.len() as int));
                    assert(!out.contains(window)) by {
                        if out.contains(window) {
                            let i = choose|i: int|
                                0 <= i < all.skip(held.len() as int).len() && all.skip(
                                    held.len() as int,
                                )[i] == window;
                            assert(all[held.len() + i] == window);
                        }
                    }
                    assert(all.skip(left.len() as int).to_set() =~= out.insert(window)) by {
                        let longer = all.skip(left.len() as int);
                        let shorter = all.skip(held.len() as int);
                        assert forall|w: X11Window| longer.contains(w) <==> shorter.contains(w) || w
                            == window by {
                            if longer.contains(w) {
                                let i = choose|i: int| 0 <= i < longer.len() && longer[i] == w;
                                if i > 0 {
                                    assert(shorter[i - 1] == w);
                                }
                            }
                            if shorter.contains(w) {
                                let i = choose|i: int| 0 <= i < shorter.len() && shorter[i] == w;
                                assert(longer[i + 1] == w);
                            }
                            assert(longer[0] == window);
                        }
                    }
                }
                let ghost old_taken = taken@;
                if let Some(transfer) = map.remove(&window) {
                    taken.push((window, transfer));
                    proof {
                        assert forall|w: X11Window|
                            out.insert(window).contains(w) implies exists|i: int|
                            0 <= i < taken@.len() && (#[trigger] taken@[i]).0 == w by {
                            if w == window {
                                assert(taken@[taken@.len() - 1].0 == w);
                            } else {
                                let i = choose|i: int|
                                    0 <= i < old_taken.len() && (#[trigger] old_taken[i]).0 == w;
                                assert(taken@[i].0 == w);
                            }
                        }
                        assert(before.remove_keys(out).remove(window) =~= before.remove_keys(
                            out.insert(window),
                        ));
                    }
                }
            },
            None => {
                break;
            },
        }
    }
    proof {
        assert(all.skip(0) =~= all);
    }
    taken
}

/// Puts the next window of a walk over `map` on the list.
proof fn lemma_window_listed<V>(
    map: Map<X11Window, V>,
    stale: Set<X11Window>,
    walk: Seq<(&X11Window, &V)>,
    index: int,
    before: Seq<X11Window>,
    after: Seq<X11Window>,
)
    requires
        0 <= index < walk.len(),
        walk.no_duplicates(),
        forall|i: int|
            0 <= i < walk.len() ==> map.contains_key(*(#[trigger] walk[i]).0) && map[*walk[i].0]
                == *walk[i].1,
        listed_so_far(stale, walk, index, before),
        after == if stale.contains(*walk[index].0) {
            before.push(*walk[index].0)
        } else {
            before
        },
    ensures
        listed_so_far(stale, walk, index + 1, after),
{
    let window = *walk[index].0;
    if stale.contains(window) {
        assert(!before.contains(window)) by {
            if before.contains(window) {
                let j = choose|j: int| 0 <= j < index && *(#[trigger] walk[j]).0 == window;
                assert(walk[j] == walk[index]);
            }
        }
        assert(after[before.len() as int] == window);
        assert forall|w: X11Window| before.contains(w) implies after.contains(w) by {
            let i = choose|i: int| 0 <= i < before.len() && before[i] == w;
            assert(after[i] == w);
        }
        assert forall|w: X11Window| after.contains(w) implies stale.contains(w) && exists|j: int|
            0 <= j < index + 1 && *(#[trigger] walk[j]).0 == w by {
            let i = choose|i: int| 0 <= i < after.len() && after[i] == w;
            if i < before.len() {
                assert(before[i] == w);
                assert(before.contains(w));
            } else {
                assert(*walk[index].0 == w);
            }
        }
        assert forall|i: int, j: int|
            0 <= i < after.len() && 0 <= j < after.len() && i != j implies after[i] != after[j] by {
            if i == before.len() {
                assert(before.contains(after[j]));
            }
            if j == before.len() {
                assert(before.contains(after[i]));
            }
        }
    }
}

/// After `index` steps of a walk over a map, the list holds the stale windows that were met.
spec fn listed_so_far<V>(
    stale: Set<X11Window>,
    walk: Seq<(&X11Window, &V)>,
    index: int,
    list: Seq<X11Window>,
) -> bool {
    &&& list.no_duplicates()
    &&& forall|w: X11Window| #[trigger]
        list.contains(w) ==> stale.contains(w) && exists|j: int|
            0 <= j < index && *(#[trigger] walk[j]).0 == w
    &&& forall|j: int|
        0 <= j < index && stale.contains(*(#[trigger] walk[j]).0) ==> list.contains(*walk[j].0)
}

impl<P, I, C> XWmSelection<P, I, C> {
    /// The windows of the pending transfers that a sweep drops.
    pub open spec fn stale_pending(
        self,
        now: Instant,
        timeout: Duration,
        gone: ReadersGone,
    ) -> Set<X11Window> {
        self.pending_transfers@.dom().filter(
            |window: X11Window|
                self.pending_transfers@[window].stale(now, timeout, gone.pending@.contains(window)),
        )
    }

    /// The windows of the incoming transfers that a sweep drops.
    pub open spec fn stale_incoming(
        self,
        now: Instant,
        timeout: Duration,
        gone: ReadersGone,
    ) -> Set<X11Window> {
        self.incoming@.dom().filter(
            |window: X11Window|
                self.incoming@[window].stale(
                    now,
                    timeout,
                    self.generation,
                    gone.incoming@.contains(window),
                ),
        )
    }

    /// The windows of the outgoing transfers that a sweep drops.
    pub open spec fn stale_outgoing(self, now: Instant, timeout: Duration) -> Set<X11Window> {
        self.outgoing@.dom().filter(
            |window: X11Window| self.outgoing@[window].stale(now, timeout),
        )
    }

    /// Whether `after` is the selection without the transfers that a sweep drops.
    pub open spec fn sweeps_to(
        self,
        after: Self,
        now: Instant,
        timeout: Duration,
        gone: ReadersGone,
    ) -> bool {
        &&& after.pending_transfers@ == self.pending_transfers@.remove_keys(
            self.stale_pending(now, timeout, gone),
        )
        &&& after.incoming@ == self.incoming@.remove_keys(self.stale_incoming(now, timeout, gone))
        &&& after.outgoing@ == self.outgoing@.remove_keys(self.stale_outgoing(now, timeout))
        &&& after.same_selection(self)
    }

    fn list_stale_pending(&self, now: Instant, timeout: Duration, gone: &ReadersGone) -> (list:
        WindowList)
        ensures
            list@.no_duplicates(),
            list@.to_set() == self.stale_pending(now, timeout, *gone),
    {
        broadcast use vstd::std_specs::hash::group_hash_axioms;

        let mut list = WindowList::new();
        let ghost stale = self.stale_pending(now, timeout, *gone);
        for (window, transfer) in walk: self.pending_transfers.iter()
            invariant
                walk.seq() == vstd::std_specs::iter::IteratorSpec::remaining(
                    &vstd::std_specs::hash::spec_hash_map_iter(&self.pending_transfers),
                ),
                walk.seq().no_duplicates(),
                stale == self.stale_pending(now, timeout, *gone),
                listed_so_far(stale, walk.seq(), walk.index(), list@),
        {
            let ghost before = list@;
            if transfer.is_stale(now, timeout, gone.pending.contains(window)) {
                list.push(*window);
            }
            proof {
                lemma_window_listed(
                    self.pending_transfers@,
                    stale,
                    walk.seq(),
                    walk.index(),
                    before,
                    list@,
                );
            }
        }
        assert(list@.to_set() =~= stale);
        list
    }

    fn list_stale_incoming(&self, now: Instant, timeout: Duration, gone: &ReadersGone) -> (list:
        WindowList)
        ensures
            list@.no_duplicates(),
            list@.to_set() == self.stale_incoming(now, timeout, *gone),
    {
        broadcast use vstd::std_specs::hash::group_hash_axioms;

        let mut list = WindowList::new();
        let ghost stale = self.stale_incoming(now, timeout, *gone);
        for (window, transfer) in walk: self.incoming.iter()
            invariant
                walk.seq() == vstd::std_specs::iter::IteratorSpec::remaining(
                    &vstd::std_specs::hash::spec_hash_map_iter(&self.incoming),
                ),
                walk.seq().no_duplicates(),
                stale == self.stale_incoming(now, timeout, *gone),
                listed_so_far(stale, walk.seq(), walk.index(), list@),
        {
            let ghost before = list@;
            if transfer.is_stale(now, timeout, self.generation, gone.incoming.contains(window)) {
                list.push(*window);
            }
            proof {
                lemma_window_listed(
                    self.incoming@,
                    stale,
                    walk.seq(),
                    walk.index(),
                    before,
                    list@,
                );
            }
        }
        assert(list@.to_set() =~= stale);
        list
    }

    fn list_stale_outgoing(&self, now: Instant, timeout: Duration) -> (list: WindowList)
        ensures
            list@.no_duplicates(),
            list@.to_set() == self.stale_outgoing(now, timeout),
    {
        broadcast use vstd::std_specs::hash::group_hash_axioms;

        let mut list = WindowList::new();
        let ghost stale = self.stale_outgoing(now, timeout);
        for (window, transfer) in walk: self.outgoing.iter()
            invariant
                walk.seq() == vstd::std_specs::iter::IteratorSpec::remaining(
                    &vstd::std_specs::hash::spec_hash_map_iter(&self.outgoing),
                ),
                walk.seq().no_duplicates(),
                stale == self.stale_outgoing(now, timeout),
                listed_so_far(stale, walk.seq(), walk.index(), list@),
        {
            let ghost before = list@;
            if transfer.is_stale(now, timeout) {
                list.push(*window);
            }
            proof {
                lemma_window_listed(
                    self.outgoing@,
                    stale,
                    walk.seq(),
                    walk.index(),
                    before,
                    list@,
                );
            }
        }
        assert(list@.to_set() =~= stale);
        list
    }

    /// Drops the transfers that will not finish, and says whether any are left:
    ///
    /// - a conversion waiting on its owner whose reader has left, or that has waited for
    ///   `timeout`;
    /// - an incoming transfer whose reader has left, that has not moved for `timeout`, or that
    ///   is waiting on its owner for a chunk, idle past
    ///   [`OWNER_CHANGE_GRACE`](crate::limits::OWNER_CHANGE_GRACE), after the selection has
    ///   changed hands (or lost its owner) since it was answered;
    /// - an outgoing transfer that has not moved for `timeout`.
    ///
    /// The incoming and outgoing ones are handed out, for their sources to be taken off the event
    /// loop.
    pub fn sweep(&mut self, now: Instant, timeout: Duration, gone: &ReadersGone) -> (swept: Swept<I, C>)
        ensures
            old(self).sweeps_to(*final(self), now, timeout, *gone),
            taken_out(
                swept.incoming@,
                old(self).incoming@,
                old(self).stale_incoming(now, timeout, *gone),
            ),
            taken_out(
                swept.outgoing@,
                old(self).outgoing@,
                old(self).stale_outgoing(now, timeout),
            ),
            swept.active == final(self).in_flight(),
    {
        let stale = self.list_stale_pending(now, timeout, gone);
        take_out(&mut self.pending_transfers, stale);
        let stale = self.list_stale_incoming(now, timeout, gone);
        let incoming = take_out(&mut self.incoming, stale);
        let stale = self.list_stale_outgoing(now, timeout);
        let outgoing = take_out(&mut self.outgoing, stale);
        let active = !self.incoming.is_empty() || !self.outgoing.is_empty()
            || !self.pending_transfers.is_empty();
        Swept { incoming, outgoing, active }
    }

    /// Some transfer is under way or waiting.
    pub open spec fn in_flight(self) -> bool {
        ||| !self.incoming@.is_empty()
        ||| !self.outgoing@.is_empty()
        ||| !self.pending_transfers@.is_empty()
    }

    /// Whether the two differ in their transfers at most.
    pub open spec fn same_selection(self, other: Self) -> bool {
        &&& self.atom == other.atom
        &&& self.atoms == other.atoms
        &&& self.window == other.window
        &&& self.owner == other.owner
        &&& self.generation == other.generation
        &&& self.mime_types == other.mime_types
        &&& self.timestamp == other.timestamp
    }

    /// The transfer that goes through a window: an incoming one, or else an outgoing one, or else a
    /// pending one.
    pub open spec fn transfer_through(self, window: X11Window) -> Option<RemovedTransfer<P, I, C>> {
        if self.incoming@.contains_key(window) {
            Some(RemovedTransfer::Incoming(self.incoming@[window]))
        } else if self.outgoing@.contains_key(window) {
            Some(RemovedTransfer::Outgoing(self.outgoing@[window]))
        } else if self.pending_transfers@.contains_key(window) {
            Some(RemovedTransfer::Pending(self.pending_transfers@[window]))
        } else {
            None
        }
    }

    /// Whether `after` is the selection without the transfer that goes through `window`.
    pub open spec fn loses_to(self, after: Self, window: X11Window) -> bool {
        let lost = self.transfer_through(window);
        &&& after.incoming@ =~= if lost is Some && lost->0 is Incoming {
            self.incoming@.remove(window)
        } else {
            self.incoming@
        }
        &&& after.outgoing@ =~= if lost is Some && lost->0 is Outgoing {
            self.outgoing@.remove(window)
        } else {
            self.outgoing@
        }
        &&& after.pending_transfers@ =~= if lost is Some && lost->0 is Pending {
            self.pending_transfers@.remove(window)
        } else {
            self.pending_transfers@
        }
        &&& after.same_selection(self)
    }

    /// Takes out the transfer that went through a window which is no more, and returns it: an
    /// incoming one, or else an outgoing one, or else a pending one.
    pub fn window_destroyed(&mut self, window: &X11Window) -> (removed: Option<
        RemovedTransfer<P, I, C>,
    >)
        ensures
            removed == old(self).transfer_through(*window),
            removed is None <==> !old(self).incoming@.contains_key(*window) && !old(
                self,
            ).outgoing@.contains_key(*window) && !old(self).pending_transfers@.contains_key(
                *window,
            ),
            !final(self).incoming@.contains_key(*window),
            old(self).loses_to(*final(self), *window),
    {
        broadcast use vstd::std_specs::hash::group_hash_axioms;

        if let Some(transfer) = self.incoming.remove(window) {
            Some(RemovedTransfer::Incoming(transfer))
        } else if let Some(transfer) = self.outgoing.remove(window) {
            Some(RemovedTransfer::Outgoing(transfer))
        } else if let Some(transfer) = self.pending_transfers.remove(window) {
            Some(RemovedTransfer::Pending(transfer))
        } else {
            None
        }
    }

    /// Whether the window is one of the selection's own: that of the selection itself, or of a
    /// transfer into a Wayland client.
    pub open spec fn owns(self, window: X11Window) -> bool {
        ||| self.window == window
        ||| self.incoming@.contains_key(window)
        ||| self.pending_transfers@.contains_key(window)
    }

    /// Whether the window is one of the selection's own: that of the selection itself, or of a
    /// transfer into a Wayland client.
    pub fn has_window(&self, window: &X11Window) -> (own: bool)
        ensures
            own == self.owns(*window),
            own <==> *window == self.window || self.incoming@.contains_key(*window)
                || self.pending_transfers@.contains_key(*window),
    {
        broadcast use vstd::std_specs::hash::group_hash_axioms;

        self.window == *window || self.incoming.contains_key(window)
            || self.pending_transfers.contains_key(window)
    }

    /// Which selection this is, if it is one that Wayland has too.
    pub fn type_(&self) -> (target: Option<SelectionTarget>)
        ensures
            target == (if self.atom == self.atoms.CLIPBOARD {
                Some(SelectionTarget::Clipboard)
            } else if self.atom == self.atoms.PRIMARY {
                Some(SelectionTarget::Primary)
            } else {
                None
            }),
    {
        if self.atom == self.atoms.CLIPBOARD {
            Some(SelectionTarget::Clipboard)
        } else if self.atom == self.atoms.PRIMARY {
            Some(SelectionTarget::Primary)
        } else {
            None
        }
    }

    /// What has to be asked of the X server before a selection can be handled through `window`, in
    /// this order: that the window be made, that it own the clipboard manager selection if the
    /// selection is the clipboard, and that it be told of changes of owner. 1 is the class
    /// `InputOutput`, bit 22 of an event mask is `PropertyChange`, and the three lowest bits of a
    /// selection event mask are all there are.
    pub open spec fn setup_requests(
        screen: Screen,
        atoms: Atoms,
        atom: Atom,
        window: X11Window,
    ) -> Seq<SetupRequest> {
        let made = SetupRequest::CreateWindow(
            CreateWindow {
                depth: screen.root_depth,
                window,
                parent: screen.root,
                x: 0,
                y: 0,
                width: 10,
                height: 10,
                border_width: 0,
                class: 1,
                visual: screen.root_visual,
                event_mask: 0x40_0000,
            },
        );
        let managed = SetupRequest::SetSelectionOwner(
            SetSelectionOwner { owner: window, selection: atoms.CLIPBOARD_MANAGER, time: 0 },
        );
        let watched = SetupRequest::SelectSelectionInput(
            SelectSelectionInput { window, selection: atom, event_mask: 7 },
        );
        if atom == atoms.CLIPBOARD {
            seq![made, managed, watched]
        } else {
            seq![made, watched]
        }
    }

    /// What has to be asked of the X server, in this order and flushed at the end, before the
    /// selection `atom` can be handled through `window`.
    pub fn setup(screen: &Screen, atoms: &Atoms, atom: Atom, window: X11Window) -> (requests: Vec<
        SetupRequest,
    >)
        ensures
            requests@ == Self::setup_requests(*screen, *atoms, atom, window),
    {
        let mut requests: Vec<SetupRequest> = Vec::new();
        requests.push(
            SetupRequest::CreateWindow(
                CreateWindow {
                    depth: screen.root_depth,
                    window,
                    parent: screen.root,
                    x: 0,
                    y: 0,
                    width: 10,
                    height: 10,
                    border_width: 0,
                    class: input_output_class(),
                    visual: screen.root_visual,
                    event_mask: property_change_mask(),
                },
            ),
        );
        if atom == atoms.CLIPBOARD {
            requests.push(
                SetupRequest::SetSelectionOwner(
                    SetSelectionOwner {
                        owner: window,
                        selection: atoms.CLIPBOARD_MANAGER,
                        time: current_time(),
                    },
                ),
            );
        }
        let event_mask: u32 = owner_set_mask() | owner_window_destroyed_mask()
            | owner_client_closed_mask();
        assert(1u32 | 2u32 | 4u32 == 7u32) by (bit_vector);
        requests.push(
            SetupRequest::SelectSelectionInput(
                SelectSelectionInput { window, selection: atom, event_mask },
            ),
        );
        requests
    }

    /// The selection `atom`, nobody's yet and with no transfers. `set_up` is the window for which
    /// [`XWmSelection::setup`] was carried out, or why it was not.
    pub fn new<E>(atoms: &Atoms, atom: Atom, set_up: Result<X11Window, E>) -> (result: Result<Self, E>)
        ensures
            match set_up {
                Ok(window) => result matches Ok(selection) && selection.is_new(
                    *atoms,
                    atom,
                    window,
                ),
                Err(error) => result == Err::<Self, E>(error),
            },
    {
        match set_up {
            Ok(window) => {
                let selection = XWmSelection {
                    atom,
                    atoms: *atoms,
                    window,
                    owner: no_window(),
                    generation: 0,
                    mime_types: Vec::new(),
                    timestamp: current_time(),
                    pending_transfers: HashMap::new(),
                    incoming: HashMap::new(),
                    outgoing: HashMap::new(),
                };
                Ok(selection)
            },
            Err(error) => Err(error),
        }
    }

    /// The selection as it starts: without owner (0), types, transfers or time (0, the current
    /// time).
    pub open spec fn is_new(self, atoms: Atoms, atom: Atom, window: X11Window) -> bool {
        &&& self.atom == atom
        &&& self.atoms == atoms
        &&& self.window == window
        &&& self.owner == 0
        &&& self.generation == 0
        &&& self.mime_types@ == Seq::<String>::empty()
        &&& self.timestamp == 0
        &&& !self.in_flight()
    }
}

} // verus!
