use std::collections::HashSet;

use calloop::timer::TimeoutAction;
use calloop::timer::Timer;
use calloop::EventLoop;
use calloop::RegistrationToken;
use xwm_selection::clock::Instant;
use xwm_selection::incoming::IncomingTransfer;
use xwm_selection::limits::OWNER_CHANGE_GRACE;
use xwm_selection::limits::SELECTION_TRANSFER_TIMEOUT;
use xwm_selection::outgoing::OutgoingTransfer;
use xwm_selection::pending::PendingTransfer;
use xwm_selection::selection::CreateWindow;
use xwm_selection::selection::ReadersGone;
use xwm_selection::selection::RemovedTransfer;
use xwm_selection::selection::Screen;
use xwm_selection::selection::SelectSelectionInput;
use xwm_selection::selection::SelectionTarget;
use xwm_selection::selection::SetSelectionOwner;
use xwm_selection::selection::SetupRequest;
use xwm_selection::selection::XWmSelection;
use xwm_selection::x11::Atoms;
use xwm_selection::x11::SelectionRequestEvent;

const ATOMS: Atoms = Atoms {
    CLIPBOARD: 401,
    CLIPBOARD_MANAGER: 402,
    PRIMARY: 1,
    INCR: 403,
    _WL_SELECTION: 404,
};

type Selection = XWmSelection<u8, u8, ()>;

fn at(nanos: u128) -> Instant {
    Instant { nanos }
}

fn tokens(count: usize) -> Vec<RegistrationToken> {
    let event_loop: EventLoop<'_, ()> = EventLoop::try_new().unwrap();
    (0..count)
        .map(|_| {
            event_loop
                .handle()
                .insert_source(Timer::immediate(), |_, _, _| TimeoutAction::Drop)
                .unwrap()
        })
        .collect()
}

fn selection() -> Selection {
    Selection::new::<()>(&ATOMS, 401, Ok(10)).unwrap()
}

fn incoming(token: RegistrationToken, window: u32, generation: u64, moved: u128) -> IncomingTransfer<u8> {
    IncomingTransfer::new(token, window, 0, generation, at(moved))
}

fn outgoing(token: RegistrationToken, window: u32, moved: u128) -> OutgoingTransfer<()> {
    OutgoingTransfer {
        conn: (),
        token: Some(token),
        incr: false,
        source_data: Vec::new(),
        request: SelectionRequestEvent {
            response_type: 30,
            sequence: 0,
            time: 0,
            owner: 10,
            requestor: window,
            selection: 401,
            target: 405,
            property: 406,
        },
        property_set: false,
        flush_property_on_delete: false,
        sent_finished: false,
        last_activity: at(moved),
    }
}

fn nobody_gone() -> ReadersGone {
    ReadersGone {
        pending: HashSet::new(),
        incoming: HashSet::new(),
    }
}

#[test]
fn new_selection_is_nobodys_and_empty() {
    let s = selection();
    assert_eq!((s.atom, s.atoms, s.window), (401, ATOMS, 10));
    assert_eq!((s.owner, s.generation, s.timestamp), (0, 0, 0));
    assert!(s.mime_types.is_empty());
    assert!(s.pending_transfers.is_empty() && s.incoming.is_empty() && s.outgoing.is_empty());
}

#[test]
fn failed_setup_is_reported() {
    assert!(matches!(
        Selection::new(&ATOMS, 401, Err("no display")),
        Err("no display")
    ));
}

fn screen() -> Screen {
    Screen {
        root: 3,
        root_depth: 24,
        root_visual: 33,
    }
}

fn made() -> SetupRequest {
    SetupRequest::CreateWindow(CreateWindow {
        depth: 24,
        window: 10,
        parent: 3,
        x: 0,
        y: 0,
        width: 10,
        height: 10,
        border_width: 0,
        class: 1,
        visual: 33,
        event_mask: 4194304,
    })
}

#[test]
fn clipboard_is_set_up_with_its_manager() {
    assert_eq!(
        Selection::setup(&screen(), &ATOMS, 401, 10),
        vec![
            made(),
            SetupRequest::SetSelectionOwner(SetSelectionOwner {
                owner: 10,
                selection: 402,
                time: 0,
            }),
            SetupRequest::SelectSelectionInput(SelectSelectionInput {
                window: 10,
                selection: 401,
                event_mask: 7,
            }),
        ]
    );
}

#[test]
fn other_selections_are_set_up_without_the_manager() {
    assert_eq!(
        Selection::setup(&screen(), &ATOMS, 1, 10),
        vec![
            made(),
            SetupRequest::SelectSelectionInput(SelectSelectionInput {
                window: 10,
                selection: 1,
                event_mask: 7,
            }),
        ]
    );
}

#[test]
fn type_is_by_atom() {
    let mut s = selection();
    assert_eq!(s.type_(), Some(SelectionTarget::Clipboard));
    s.atom = 1;
    assert_eq!(s.type_(), Some(SelectionTarget::Primary));
    s.atom = 2;
    assert_eq!(s.type_(), None);
}

#[test]
fn own_windows_are_its_own_and_those_of_incoming_and_pending_transfers() {
    let tokens = tokens(2);
    let mut s = selection();
    s.incoming.insert(20, incoming(tokens[0], 20, 0, 0));
    s.outgoing.insert(30, outgoing(tokens[1], 30, 0));
    s.pending_transfers.insert(40, PendingTransfer::new(40, 0, at(0)));
    assert!(s.has_window(&10));
    assert!(s.has_window(&20));
    assert!(!s.has_window(&30));
    assert!(s.has_window(&40));
    assert!(!s.has_window(&50));
}

#[test]
fn destroyed_window_is_forgotten() {
    let tokens = tokens(2);
    let mut s = selection();
    s.incoming.insert(20, incoming(tokens[0], 20, 0, 0));
    s.outgoing.insert(30, outgoing(tokens[1], 30, 0));
    s.pending_transfers.insert(40, PendingTransfer::new(40, 6, at(0)));

    assert!(s.window_destroyed(&50).is_none());
    match s.window_destroyed(&20) {
        Some(RemovedTransfer::Incoming(transfer)) => assert!(transfer.destroy() == Some(tokens[0])),
        _ => panic!("not incoming"),
    }
    assert!(!s.has_window(&20));
    match s.window_destroyed(&30) {
        Some(RemovedTransfer::Outgoing(transfer)) => assert!(transfer.destroy() == Some(tokens[1])),
        _ => panic!("not outgoing"),
    }
    match s.window_destroyed(&40) {
        Some(RemovedTransfer::Pending(transfer)) => assert_eq!(transfer.reader, 6),
        _ => panic!("not pending"),
    }
    assert!(s.window_destroyed(&20).is_none());
    assert!(s.window_destroyed(&30).is_none());
    assert!(s.window_destroyed(&40).is_none());
    assert!(s.has_window(&10));
}

#[test]
fn window_of_two_kinds_loses_the_incoming_transfer_first() {
    let tokens = tokens(2);
    let mut s = selection();
    s.incoming.insert(20, incoming(tokens[0], 20, 0, 0));
    s.outgoing.insert(20, outgoing(tokens[1], 20, 0));
    s.pending_transfers.insert(20, PendingTransfer::new(20, 0, at(0)));
    assert!(matches!(s.window_destroyed(&20), Some(RemovedTransfer::Incoming(_))));
    assert!(s.has_window(&20));
    assert!(matches!(s.window_destroyed(&20), Some(RemovedTransfer::Outgoing(_))));
    assert!(s.has_window(&20));
    assert!(matches!(s.window_destroyed(&20), Some(RemovedTransfer::Pending(_))));
    assert!(!s.has_window(&20));
}

#[test]
fn sweep_drops_what_will_not_finish() {
    let tokens = tokens(6);
    let timeout = SELECTION_TRANSFER_TIMEOUT;
    let now = 100_000_000_000;
    let fresh = now - 1;
    let old = now - timeout;
    let mut s = selection();
    s.generation = 5;

    s.pending_transfers.insert(40, PendingTransfer::new(40, 0, at(fresh)));
    s.pending_transfers.insert(41, PendingTransfer::new(41, 0, at(old)));
    s.pending_transfers.insert(42, PendingTransfer::new(42, 0, at(fresh)));

    s.incoming.insert(20, incoming(tokens[0], 20, 5, fresh));
    s.incoming.insert(21, incoming(tokens[1], 21, 5, old));
    // Waiting on a previous owner, past the grace and within it.
    let mut waiting = incoming(tokens[2], 22, 4, now - OWNER_CHANGE_GRACE);
    waiting.delete_sent = true;
    s.incoming.insert(22, waiting);
    let mut waiting = incoming(tokens[3], 23, 4, now - OWNER_CHANGE_GRACE + 1);
    waiting.awaiting_chunk = true;
    s.incoming.insert(23, waiting);

    s.outgoing.insert(30, outgoing(tokens[4], 30, old + 1));
    s.outgoing.insert(31, outgoing(tokens[5], 31, old));

    let mut gone = nobody_gone();
    gone.pending.insert(42);
    // The reader of an incoming transfer, not of the pending one of the same number.
    gone.pending.insert(20);

    let swept = s.sweep(at(now), timeout, &gone);
    assert!(swept.active);
    let mut left: Vec<u32> = s.pending_transfers.keys().copied().collect();
    left.sort();
    assert_eq!(left, vec![40]);
    let mut left: Vec<u32> = s.incoming.keys().copied().collect();
    left.sort();
    assert_eq!(left, vec![20, 23]);
    let left: Vec<u32> = s.outgoing.keys().copied().collect();
    assert_eq!(left, vec![30]);

    let mut out = swept.incoming;
    out.sort_by_key(|(window, _)| *window);
    assert_eq!(out.len(), 2);
    assert_eq!((out[0].0, out[1].0), (21, 22));
    assert!(out[0].1.token == Some(tokens[1]));
    assert!(out[1].1.token == Some(tokens[2]));
    assert_eq!(swept.outgoing.len(), 1);
    assert_eq!(swept.outgoing[0].0, 31);
    assert!(swept.outgoing[0].1.token == Some(tokens[5]));

    // A second sweep finds nothing.
    let swept = s.sweep(at(now), timeout, &gone);
    assert!(swept.active && swept.incoming.is_empty() && swept.outgoing.is_empty());
    assert_eq!(s.incoming.len(), 2);

    gone.incoming.insert(20);
    gone.incoming.insert(23);
    let swept = s.sweep(at(now), timeout, &gone);
    assert!(swept.active);
    assert_eq!(swept.incoming.len(), 2);
    let swept = s.sweep(at(now + timeout), timeout, &gone);
    assert!(!swept.active);
    assert_eq!(swept.outgoing.len(), 1);
    assert!(s.pending_transfers.is_empty());
}

#[test]
fn sweep_of_nothing_leaves_nothing() {
    let mut s = selection();
    let swept = s.sweep(at(7), 0, &nobody_gone());
    assert!(!swept.active && swept.incoming.is_empty() && swept.outgoing.is_empty());
}

#[test]
fn sweep_of_more_than_fit_in_place() {
    let tokens = tokens(20);
    let mut s = selection();
    for (i, token) in tokens.iter().enumerate() {
        s.outgoing.insert(100 + i as u32, outgoing(*token, 100 + i as u32, 0));
    }
    let swept = s.sweep(at(50), 50, &nobody_gone());
    assert!(!swept.active);
    let mut windows: Vec<u32> = swept.outgoing.iter().map(|(window, _)| *window).collect();
    windows.sort();
    assert_eq!(windows, (100..120).collect::<Vec<u32>>());
    for (window, transfer) in swept.outgoing {
        assert!(transfer.destroy() == Some(tokens[window as usize - 100]));
    }
}

#[test]
fn longer_timeout_keeps_more() {
    let tokens = tokens(2);
    let mut s = selection();
    s.outgoing.insert(30, outgoing(tokens[0], 30, 10));
    s.outgoing.insert(31, outgoing(tokens[1], 31, 50));
    let swept = s.sweep(at(100), 1000, &nobody_gone());
    assert!(swept.outgoing.is_empty());
    let swept = s.sweep(at(100), 60, &nobody_gone());
    assert_eq!(swept.outgoing.len(), 1);
    assert_eq!(swept.outgoing[0].0, 30);
}
