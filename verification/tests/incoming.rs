use calloop::timer::TimeoutAction;
use calloop::timer::Timer;
use calloop::EventLoop;
use calloop::RegistrationToken;
use xwm_selection::clock::Instant;
use xwm_selection::incoming::next_chunk;
use xwm_selection::incoming::request_next_chunk;
use xwm_selection::incoming::write_selection_callback;
use xwm_selection::incoming::IncomingAction;
use xwm_selection::incoming::IncomingEvent;
use xwm_selection::incoming::IncomingStep;
use xwm_selection::incoming::IncomingTransfer;
use xwm_selection::limits::INCR_CHUNK_SIZE;
use xwm_selection::limits::OWNER_CHANGE_GRACE;
use xwm_selection::limits::PROPERTY_SLICE;
use xwm_selection::pending::PendingTransfer;
use xwm_selection::x11::Atoms;
use xwm_selection::x11::DeleteProperty;
use xwm_selection::x11::GetProperty;
use xwm_selection::x11::GetPropertyReply;

const ATOMS: Atoms = Atoms {
    CLIPBOARD: 401,
    CLIPBOARD_MANAGER: 402,
    PRIMARY: 1,
    INCR: 403,
    _WL_SELECTION: 404,
};

type Event = IncomingEvent<&'static str, &'static str>;

fn at(nanos: u128) -> Instant {
    Instant { nanos }
}

fn token() -> RegistrationToken {
    let event_loop: EventLoop<'_, ()> = EventLoop::try_new().unwrap();
    event_loop
        .handle()
        .insert_source(Timer::immediate(), |_, _, _| TimeoutAction::Drop)
        .unwrap()
}

fn transfer() -> IncomingTransfer<&'static str> {
    IncomingTransfer::new(token(), 90, "reader", 7, at(1000))
}

fn bytes(from: usize, len: usize) -> Vec<u8> {
    (from..from + len).map(|i| (i % 251) as u8).collect()
}

fn step(t: &mut IncomingTransfer<&'static str>, event: Event) -> IncomingStep {
    write_selection_callback(&ATOMS, t, event).unwrap()
}

/// What a server answers to `request` on a window whose property holds `property`.
fn reply(property: &[u8], request: GetProperty) -> GetPropertyReply {
    let start = request.long_offset as usize * 4;
    let end = property.len().min(start + request.long_length as usize * 4);
    GetPropertyReply {
        type_: 500,
        bytes_after: (property.len() - end) as u32,
        value: property[start..end].to_vec(),
    }
}

/// Reads a whole property into a pipe that takes `most` bytes at a time.
fn pump(t: &mut IncomingTransfer<&'static str>, property: &[u8], most: usize) -> (Vec<u8>, usize, IncomingStep) {
    let mut given = Vec::new();
    let mut slices = 1;
    let first = reply(property, t.next_slice(&ATOMS));
    assert_eq!(t.read_slice::<()>(Ok(first), at(1001)), Ok(500));
    loop {
        assert!(t.source_data.len() <= INCR_CHUNK_SIZE);
        let mut next = step(t, IncomingEvent::Writable);
        if next == IncomingStep::Write {
            let len = most.min(t.source_data.len());
            given.extend_from_slice(&t.source_data[..len]);
            next = step(
                t,
                IncomingEvent::Written {
                    result: Ok(len),
                    now: at(1002),
                },
            );
        }
        match next {
            IncomingStep::ReadSlice(request) => {
                slices += 1;
                assert!(t.source_data.is_empty());
                let answer = reply(property, request);
                next = step(
                    t,
                    IncomingEvent::SliceRead {
                        reply: Ok(answer),
                        now: at(1003),
                    },
                );
                assert_eq!(next, IncomingStep::Return(IncomingAction::WaitForWritable));
            }
            IncomingStep::Return(IncomingAction::WaitForWritable) => {}
            other => return (given, slices, other),
        }
    }
}

#[test]
fn slice_is_one_chunk() {
    assert_eq!(PROPERTY_SLICE, 16384);
    assert_eq!(PROPERTY_SLICE as usize * 4, INCR_CHUNK_SIZE);
}

#[test]
fn new_transfer_has_not_started() {
    let token = token();
    let t = IncomingTransfer::new(token, 90, "reader", 7, at(1000));
    assert!(t.token == Some(token));
    assert_eq!(t.window, 90);
    assert_eq!(t.reader, "reader");
    assert!(!t.incr && !t.more && !t.delete_sent && !t.awaiting_chunk);
    assert!(t.source_data.is_empty());
    assert_eq!(t.offset, 0);
    assert_eq!(t.last_activity, at(1000));
    assert_eq!(t.generation, 7);
    assert!(!t.waiting_on_owner());
    assert!(t.destroy() == Some(token));
}

#[test]
fn slice_is_asked_for_at_the_offset() {
    let mut t = transfer();
    t.offset = 32768;
    assert_eq!(
        t.next_slice(&ATOMS),
        GetProperty {
            delete: false,
            window: 90,
            property: 404,
            type_: 0,
            long_offset: 32768,
            long_length: 16384,
        }
    );
}

#[test]
fn read_slice_moves_the_offset_by_whole_units() {
    let mut t = transfer();
    let first = GetPropertyReply {
        type_: 31,
        bytes_after: 5,
        value: bytes(0, 8),
    };
    assert_eq!(t.read_slice::<()>(Ok(first), at(1500)), Ok(31));
    assert_eq!(t.offset, 2);
    assert!(t.more);
    assert_eq!(t.last_activity, at(1500));
    let last = GetPropertyReply {
        type_: 31,
        bytes_after: 0,
        value: bytes(8, 5),
    };
    assert_eq!(t.read_slice::<()>(Ok(last), at(1600)), Ok(31));
    assert_eq!(t.offset, 3);
    assert!(!t.more);
    assert_eq!(t.source_data, bytes(0, 13));
}

#[test]
fn read_slice_stops_at_the_largest_offset() {
    let mut t = transfer();
    t.offset = u32::MAX - 1;
    let reply = GetPropertyReply {
        type_: 31,
        bytes_after: 100,
        value: bytes(0, 16),
    };
    assert_eq!(t.read_slice::<()>(Ok(reply), at(1500)), Ok(31));
    assert_eq!(t.offset, u32::MAX);
    assert!(!t.more);
}

#[test]
fn failed_slice_changes_nothing() {
    let mut t = transfer();
    assert_eq!(t.read_slice(Err("gone"), at(1500)), Err("gone"));
    assert_eq!(t.offset, 0);
    assert_eq!(t.last_activity, at(1000));
    let result = write_selection_callback(
        &ATOMS,
        &mut t,
        Event::SliceRead {
            reply: Err("gone"),
            now: at(1500),
        },
    );
    assert_eq!(result, Err("gone"));
    assert_eq!(t.last_activity, at(1000));
}

#[test]
fn write_selection_takes_off_what_was_written() {
    let mut t = transfer();
    t.source_data = bytes(0, 10);
    assert_eq!(t.write_selection::<()>(Ok(4), at(1100)), Ok(false));
    assert_eq!(t.source_data, bytes(4, 6));
    assert_eq!(t.last_activity, at(1100));
    // Nothing written is no movement.
    assert_eq!(t.write_selection::<()>(Ok(0), at(1200)), Ok(false));
    assert_eq!(t.last_activity, at(1100));
    assert_eq!(t.write_selection(Err("pipe"), at(1300)), Err("pipe"));
    assert_eq!(t.source_data, bytes(4, 6));
    assert_eq!(t.write_selection::<()>(Ok(6), at(1400)), Ok(true));
    assert!(t.source_data.is_empty());
    assert_eq!(t.last_activity, at(1400));
    // With nothing buffered nothing is written.
    assert_eq!(t.write_selection(Err("pipe"), at(1500)), Ok(true));
    assert_eq!(t.last_activity, at(1400));
}

#[test]
fn property_is_read_whole() {
    for len in [0, 1, 4, 65535, 65536, 65537, 3 * 65536, 3 * 65536 + 3] {
        for most in [1000, 65536] {
            let property = bytes(0, len);
            let mut t = transfer();
            let (given, slices, last) = pump(&mut t, &property, most);
            assert_eq!(given, property);
            assert_eq!(slices, (len + 65535).max(65536) / 65536);
            assert_eq!(last, IncomingStep::Return(IncomingAction::Done));
        }
    }
}

#[test]
fn next_chunk_is_asked_for_when_the_last_is_written() {
    let property = bytes(3, 70000);
    let mut t = transfer();
    t.incr = true;
    let (given, slices, last) = pump(&mut t, &property, 65536);
    assert_eq!(given, property);
    assert_eq!(slices, 2);
    let delete = DeleteProperty {
        window: 90,
        property: 404,
    };
    assert_eq!(last, IncomingStep::RequestChunk(delete));
    assert_eq!(next_chunk(&ATOMS, &t), delete);
    assert!(!t.waiting_on_owner());

    let result = write_selection_callback(&ATOMS, &mut t, Event::ChunkRequested(Err("gone")));
    assert_eq!(result, Err("gone"));
    assert!(!t.waiting_on_owner());
    assert_eq!(t.offset, 17500);

    t.awaiting_chunk = true;
    let next = step(&mut t, IncomingEvent::ChunkRequested(Ok(())));
    assert_eq!(next, IncomingStep::Return(IncomingAction::WaitForProperty));
    assert!(t.waiting_on_owner());
    assert!(t.delete_sent && !t.awaiting_chunk && !t.more);
    assert_eq!(t.offset, 0);
}

#[test]
fn request_next_chunk_reports_a_failed_delete() {
    let mut t = transfer();
    assert_eq!(request_next_chunk(&mut t, Err("gone")), Err("gone"));
    assert!(!t.delete_sent);
    assert_eq!(request_next_chunk::<_, ()>(&mut t, Ok(())), Ok(()));
    assert!(t.delete_sent);
}

#[test]
fn lost_reader_ends_the_transfer() {
    let mut t = transfer();
    t.source_data = bytes(0, 3);
    t.more = true;
    assert_eq!(step(&mut t, IncomingEvent::Writable), IncomingStep::Write);
    let next = step(
        &mut t,
        IncomingEvent::Written {
            result: Err("pipe"),
            now: at(1100),
        },
    );
    assert_eq!(next, IncomingStep::Return(IncomingAction::Done));
    assert_eq!(t.source_data, bytes(0, 3));
    assert_eq!(t.last_activity, at(1000));
}

#[test]
fn waiting_on_owner_is_either_half_of_the_wait() {
    let mut t = transfer();
    assert!(!t.waiting_on_owner());
    t.delete_sent = true;
    assert!(t.waiting_on_owner());
    t.delete_sent = false;
    t.awaiting_chunk = true;
    assert!(t.waiting_on_owner());
}

#[test]
fn grace_is_for_transfers_waiting_on_a_previous_owner() {
    let minute = 60_000_000_000;
    let mut t = transfer();
    t.last_activity = at(0);
    t.awaiting_chunk = true;
    let late = at(OWNER_CHANGE_GRACE);
    assert!(t.is_stale(late, minute, 8, false));
    assert!(!t.is_stale(at(OWNER_CHANGE_GRACE - 1), minute, 8, false));
    assert!(!t.is_stale(late, minute, 7, false));
    assert!(t.is_stale(late, minute, 7, true));
    t.awaiting_chunk = false;
    assert!(!t.is_stale(late, minute, 8, false));
    assert!(t.is_stale(at(minute), minute, 7, false));
    assert!(!t.is_stale(at(minute - 1), minute, 7, false));
}

#[test]
fn pending_transfer_waits_until_the_timeout_or_its_reader_leaves() {
    let t = PendingTransfer::new(33, "reader", at(500));
    assert_eq!((t.window, t.reader, t.since), (33, "reader", at(500)));
    assert!(!t.is_stale(at(599), 100, false));
    assert!(t.is_stale(at(600), 100, false));
    assert!(t.is_stale(at(500), 100, true));
    assert!(!t.is_stale(at(0), 100, false));
}
