use xwm_selection::clock::Instant;
use xwm_selection::limits::INCR_CHUNK_SIZE;
use xwm_selection::outgoing::read_selection_callback;
use xwm_selection::outgoing::OutgoingAction;
use xwm_selection::outgoing::OutgoingEvent;
use xwm_selection::outgoing::OutgoingRequest;
use xwm_selection::outgoing::OutgoingStage;
use xwm_selection::outgoing::OutgoingStep;
use xwm_selection::outgoing::OutgoingTransfer;
use xwm_selection::x11::Atoms;
use xwm_selection::x11::ReplaceProperty32;
use xwm_selection::x11::SelectionRequestEvent;

const ATOMS: Atoms = Atoms {
    CLIPBOARD: 401,
    CLIPBOARD_MANAGER: 402,
    PRIMARY: 1,
    INCR: 403,
    _WL_SELECTION: 404,
};

fn request() -> SelectionRequestEvent {
    SelectionRequestEvent {
        response_type: 30,
        sequence: 17,
        time: 5000,
        owner: 70,
        requestor: 71,
        selection: 401,
        target: 405,
        property: 406,
    }
}

fn at(nanos: u128) -> Instant {
    Instant { nanos }
}

fn transfer() -> OutgoingTransfer<&'static str> {
    OutgoingTransfer {
        conn: "connection",
        token: None,
        incr: false,
        source_data: Vec::new(),
        request: request(),
        property_set: false,
        flush_property_on_delete: false,
        sent_finished: false,
        last_activity: at(0),
    }
}

/// Bytes that tell their place.
fn bytes(from: usize, len: usize) -> Vec<u8> {
    (from..from + len).map(|i| (i % 251) as u8).collect()
}

fn step(transfer: &mut OutgoingTransfer<&'static str>, event: OutgoingEvent<&'static str>) -> OutgoingStep {
    read_selection_callback(&ATOMS, transfer, event).unwrap()
}

/// Runs a round to its end with every request sent, and returns the requests and the action.
fn round(
    transfer: &mut OutgoingTransfer<&'static str>,
    event: OutgoingEvent<&'static str>,
) -> (Vec<OutgoingRequest>, OutgoingAction) {
    let mut requests = Vec::new();
    let mut next = step(transfer, event);
    loop {
        match next {
            OutgoingStep::Send { request, stage } => {
                requests.push(request);
                next = step(transfer, OutgoingEvent::Sent(stage));
            }
            OutgoingStep::Return(action) => return (requests, action),
            OutgoingStep::Read { .. } => panic!("the round reads twice"),
        }
    }
}

fn read(transfer: &mut OutgoingTransfer<&'static str>, bytes: Vec<u8>, now: u128) -> (Vec<OutgoingRequest>, OutgoingAction) {
    assert!(matches!(
        step(transfer, OutgoingEvent::Readable),
        OutgoingStep::Read { at_most: 65536 }
    ));
    round(transfer, OutgoingEvent::Read { bytes, now: at(now) })
}

fn chunk(request: &OutgoingRequest) -> Vec<u8> {
    match request {
        OutgoingRequest::Chunk(change) => {
            assert_eq!((change.window, change.property, change.type_), (71, 406, 405));
            change.data.clone()
        }
        _ => panic!("not a chunk"),
    }
}

fn assert_answered(request: &OutgoingRequest, property: u32) {
    match request {
        OutgoingRequest::Notify(sent) => {
            assert!(!sent.propagate);
            assert_eq!(sent.destination, 71);
            assert_eq!(sent.event_mask, 0);
            assert_eq!(sent.event.response_type, 31);
            assert_eq!(sent.event.sequence, 0);
            assert_eq!(sent.event.time, 5000);
            assert_eq!(sent.event.requestor, 71);
            assert_eq!(sent.event.selection, 401);
            assert_eq!(sent.event.target, 405);
            assert_eq!(sent.event.property, property);
        }
        _ => panic!("not an answer"),
    }
}

#[test]
fn short_selection_goes_out_whole() {
    let mut t = transfer();
    let (requests, action) = read(&mut t, bytes(0, 10), 3);
    assert!(requests.is_empty());
    assert_eq!(action, OutgoingAction::WaitForReadable);
    let (requests, action) = read(&mut t, bytes(10, 20), 4);
    assert!(requests.is_empty());
    assert_eq!(action, OutgoingAction::WaitForReadable);
    assert_eq!(t.last_activity, at(4));

    let (requests, action) = read(&mut t, Vec::new(), 5);
    assert_eq!(action, OutgoingAction::Done);
    assert_eq!(requests.len(), 2);
    assert_eq!(chunk(&requests[0]), bytes(0, 30));
    assert_answered(&requests[1], 406);
    assert!(t.source_data.is_empty());
    assert!(t.property_set);
    assert!(!t.sent_finished);
    assert!(!t.incr);
    assert_eq!(t.last_activity, at(5));
}

#[test]
fn one_byte_less_than_a_chunk_is_not_incremental() {
    let mut t = transfer();
    read(&mut t, bytes(0, INCR_CHUNK_SIZE - 1), 1);
    let (requests, action) = read(&mut t, Vec::new(), 2);
    assert_eq!(action, OutgoingAction::Done);
    assert_eq!(chunk(&requests[0]), bytes(0, 65535));
}

#[test]
fn empty_selection_is_an_empty_property() {
    let mut t = transfer();
    let (requests, action) = read(&mut t, Vec::new(), 1);
    assert_eq!(action, OutgoingAction::Done);
    assert_eq!(chunk(&requests[0]), Vec::<u8>::new());
    assert_answered(&requests[1], 406);
    assert!(t.sent_finished);
}

#[test]
fn long_selection_goes_out_in_chunks() {
    let total = 3 * INCR_CHUNK_SIZE + 100;
    let mut t = transfer();
    let mut sent: Vec<u8> = Vec::new();

    // A full chunk: announced, nothing of it sent.
    let (requests, action) = read(&mut t, bytes(0, INCR_CHUNK_SIZE), 1);
    assert_eq!(action, OutgoingAction::WaitForReadable);
    assert_eq!(requests.len(), 2);
    match &requests[0] {
        OutgoingRequest::Announce(change) => assert_eq!(
            *change,
            ReplaceProperty32 {
                window: 71,
                property: 406,
                type_: 403,
                value: 65536
            }
        ),
        _ => panic!("not announced"),
    }
    assert_answered(&requests[1], 406);
    assert!(t.incr && t.property_set && t.flush_property_on_delete);

    // Held up until the requestor deletes the property.
    assert!(matches!(
        step(&mut t, OutgoingEvent::Readable),
        OutgoingStep::Return(OutgoingAction::WaitForDelete)
    ));
    assert_eq!(t.source_data.len(), INCR_CHUNK_SIZE);

    // The delete sends the chunk.
    t.property_set = false;
    t.flush_property_on_delete = false;
    let change = t.flush_data();
    assert!(!t.property_set);
    assert_eq!(t.data_flushed(&change), 0);
    sent.extend(change.data);
    assert_eq!(sent, bytes(0, INCR_CHUNK_SIZE));
    assert!(!t.sent_finished);
    assert!(t.property_set);

    // Read on while the requestor holds the chunk.
    let (requests, action) = read(&mut t, bytes(INCR_CHUNK_SIZE, INCR_CHUNK_SIZE - 1), 2);
    assert!(requests.is_empty());
    assert_eq!(action, OutgoingAction::WaitForReadable);
    assert!(!t.flush_property_on_delete);
    let (requests, _) = read(&mut t, bytes(2 * INCR_CHUNK_SIZE - 1, INCR_CHUNK_SIZE), 3);
    assert!(requests.is_empty());
    assert!(t.flush_property_on_delete);
    assert_eq!(t.source_data.len(), 2 * INCR_CHUNK_SIZE - 1);

    t.property_set = false;
    t.flush_property_on_delete = false;
    let change = t.flush_data();
    assert_eq!(t.data_flushed(&change), INCR_CHUNK_SIZE - 1);
    sent.extend(change.data);

    // Taken at once, with nothing due: the next full chunk goes out from the callback.
    t.property_set = false;
    let (requests, action) = read(&mut t, bytes(3 * INCR_CHUNK_SIZE - 1, 101), 4);
    assert_eq!(action, OutgoingAction::WaitForReadable);
    assert_eq!(requests.len(), 1);
    assert_eq!(chunk(&requests[0]).len(), INCR_CHUNK_SIZE);
    sent.extend(chunk(&requests[0]));
    assert_eq!(t.source_data.len(), 100);
    assert!(t.property_set);

    // The end of the source, with the property taken: the rest goes out.
    t.property_set = false;
    let (requests, action) = read(&mut t, Vec::new(), 5);
    assert_eq!(action, OutgoingAction::DoneReading);
    assert_eq!(requests.len(), 1);
    sent.extend(chunk(&requests[0]));
    assert!(t.flush_property_on_delete);
    assert!(!t.sent_finished);
    assert_eq!(sent, bytes(0, total));

    // The last delete draws the empty chunk.
    t.property_set = false;
    let change = t.flush_data();
    assert_eq!(change.data, Vec::<u8>::new());
    assert!(!t.sent_finished);
    assert_eq!(t.data_flushed(&change), 0);
    assert!(t.sent_finished);
    assert_eq!(t.conn, "connection");
}

#[test]
fn end_of_source_waits_for_a_property_that_is_still_held() {
    let mut t = transfer();
    t.incr = true;
    t.property_set = true;
    t.source_data = bytes(0, 5);
    let (requests, action) = read(&mut t, Vec::new(), 9);
    assert!(requests.is_empty());
    assert_eq!(action, OutgoingAction::DoneReading);
    assert!(t.flush_property_on_delete);
    assert_eq!(t.source_data, bytes(0, 5));
}

#[test]
fn end_of_source_with_a_full_chunk_and_a_free_property() {
    let mut t = transfer();
    t.incr = true;
    t.source_data = bytes(0, INCR_CHUNK_SIZE + 7);
    let (requests, action) = read(&mut t, Vec::new(), 9);
    assert_eq!(action, OutgoingAction::DoneReading);
    assert_eq!(requests.len(), 1);
    assert_eq!(chunk(&requests[0]), bytes(0, INCR_CHUNK_SIZE));
    assert_eq!(t.source_data, bytes(INCR_CHUNK_SIZE, 7));
    assert!(t.property_set && t.flush_property_on_delete);
}

#[test]
fn failed_source_is_refused() {
    let mut t = transfer();
    t.source_data = bytes(0, 12);
    let (requests, action) = round(&mut t, OutgoingEvent::ReadFailed);
    assert_eq!(action, OutgoingAction::Done);
    assert_eq!(requests.len(), 1);
    assert_answered(&requests[0], 0);
    assert_eq!(t.source_data, bytes(0, 12));
    assert_eq!(t.last_activity, at(0));
}

#[test]
fn failed_request_comes_back() {
    let mut t = transfer();
    let next = step(
        &mut t,
        OutgoingEvent::Read {
            bytes: bytes(0, INCR_CHUNK_SIZE),
            now: at(1),
        },
    );
    assert!(matches!(
        next,
        OutgoingStep::Send {
            request: OutgoingRequest::Announce(_),
            stage: OutgoingStage::AnnouncingIncr { ended: false }
        }
    ));
    let result = read_selection_callback(&ATOMS, &mut t, OutgoingEvent::SendFailed("broken"));
    assert!(matches!(result, Err("broken")));
    assert!(!t.incr && !t.property_set && !t.flush_property_on_delete);
    assert_eq!(t.source_data.len(), INCR_CHUNK_SIZE);
}

#[test]
fn failed_chunk_leaves_the_property_unset() {
    let mut t = transfer();
    step(&mut t, OutgoingEvent::Read { bytes: bytes(0, 4), now: at(1) });
    let next = step(&mut t, OutgoingEvent::Read { bytes: Vec::new(), now: at(2) });
    assert!(matches!(
        next,
        OutgoingStep::Send {
            request: OutgoingRequest::Chunk(_),
            stage: OutgoingStage::SendingWhole { last: false }
        }
    ));
    assert!(read_selection_callback(&ATOMS, &mut t, OutgoingEvent::SendFailed(1)).is_err());
    assert!(!t.property_set);
    assert!(t.source_data.is_empty());
}

#[test]
fn empty_chunk_that_cannot_be_sent_does_not_finish_the_transfer() {
    // The end of an INCR source, with the property free and nothing left.
    let mut t = transfer();
    t.incr = true;
    let next = step(&mut t, OutgoingEvent::Read { bytes: Vec::new(), now: at(1) });
    assert!(matches!(
        next,
        OutgoingStep::Send {
            request: OutgoingRequest::Chunk(_),
            stage: OutgoingStage::SendingRest { last: true }
        }
    ));
    assert!(!t.sent_finished);
    let result = read_selection_callback(&ATOMS, &mut t, OutgoingEvent::SendFailed("broken"));
    assert!(matches!(result, Err("broken")));
    assert!(!t.sent_finished && !t.property_set);

    // The end of a source that gave nothing.
    let mut t = transfer();
    let next = step(&mut t, OutgoingEvent::Read { bytes: Vec::new(), now: at(1) });
    assert!(matches!(
        next,
        OutgoingStep::Send {
            request: OutgoingRequest::Chunk(_),
            stage: OutgoingStage::SendingWhole { last: true }
        }
    ));
    let result = read_selection_callback(&ATOMS, &mut t, OutgoingEvent::SendFailed("broken"));
    assert!(matches!(result, Err("broken")));
    assert!(!t.sent_finished);

    // A flush outside the callback whose change never goes out.
    let mut t = transfer();
    assert!(t.flush_data().data.is_empty());
    assert!(!t.sent_finished);
}

#[test]
fn empty_chunk_that_is_sent_finishes_the_transfer() {
    let mut t = transfer();
    t.incr = true;
    let (requests, action) = read(&mut t, Vec::new(), 1);
    assert_eq!(action, OutgoingAction::DoneReading);
    assert_eq!(requests.len(), 1);
    assert!(chunk(&requests[0]).is_empty());
    assert!(t.sent_finished && t.property_set && t.flush_property_on_delete);
}

#[test]
fn transfer_is_finished_by_the_flush_after_its_last_bytes() {
    for (len, flushes) in [(0, 1), (1, 2), (65536, 2), (65537, 3), (131071, 3)] {
        let mut t = transfer();
        t.incr = true;
        t.source_data = bytes(0, len);
        for k in 1..=flushes {
            assert!(!t.sent_finished);
            t.property_set = false;
            let change = t.flush_data();
            t.data_flushed(&change);
            assert_eq!(t.sent_finished, k == flushes);
        }
    }
}

/// What the holder of a transfer does when the requestor deletes the property.
fn delete(t: &mut OutgoingTransfer<&'static str>, ended: bool) -> Option<Vec<u8>> {
    t.property_set = false;
    if !t.flush_property_on_delete {
        return None;
    }
    t.flush_property_on_delete = false;
    let change = t.flush_data();
    t.data_flushed(&change);
    t.flush_property_on_delete = ended && !t.sent_finished;
    Some(change.data)
}

#[test]
fn deletes_draw_out_the_rest() {
    for (len, deletes) in [(3, 2), (65536, 2), (65540, 3)] {
        let mut t = transfer();
        t.incr = true;
        t.property_set = true;
        t.source_data = bytes(0, len);
        let (requests, action) = round(&mut t, OutgoingEvent::Read { bytes: Vec::new(), now: at(1) });
        assert!(requests.is_empty());
        assert_eq!(action, OutgoingAction::DoneReading);

        let mut sent = Vec::new();
        for k in 1..=deletes {
            assert!(!t.sent_finished && t.flush_property_on_delete);
            let data = delete(&mut t, true).unwrap();
            assert_eq!(data.is_empty(), k == deletes);
            sent.extend(data);
        }
        assert!(t.sent_finished && !t.flush_property_on_delete);
        assert_eq!(sent, bytes(0, len));
        assert_eq!(delete(&mut t, true), None);
    }
}

#[test]
fn buffer_stays_below_two_chunks() {
    let mut t = transfer();
    for i in 0..50 {
        match step(&mut t, OutgoingEvent::Readable) {
            OutgoingStep::Read { at_most } => {
                let len = if i % 3 == 0 { at_most } else { at_most / 2 + i };
                round(&mut t, OutgoingEvent::Read { bytes: bytes(i, len), now: at(1) });
            }
            OutgoingStep::Return(action) => {
                assert_eq!(action, OutgoingAction::WaitForDelete);
                if i % 4 == 0 {
                    delete(&mut t, false);
                }
            }
            OutgoingStep::Send { .. } => panic!("nothing to send yet"),
        }
        assert!(t.source_data.len() < 2 * INCR_CHUNK_SIZE);
    }
}

#[test]
fn idle_transfer_is_stale_at_the_timeout() {
    let mut t = transfer();
    t.last_activity = at(100);
    assert!(!t.is_stale(at(129), 30));
    assert!(t.is_stale(at(130), 30));
    // A clock that went back counts as no time.
    assert!(!t.is_stale(at(50), 30));
    assert!(t.is_stale(at(50), 0));
}
