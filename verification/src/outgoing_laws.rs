//! What holds of every outgoing transfer.

use crate::clock::Instant;
use crate::limits::INCR_CHUNK_SIZE;
use crate::outgoing::OutgoingAction;
use crate::outgoing::OutgoingEvent;
use crate::outgoing::OutgoingRequestView;
use crate::outgoing::OutgoingStage;
use crate::outgoing::OutgoingStepView;
use crate::outgoing::OutgoingView;
use crate::x11::Atoms;
use vstd::prelude::*;

verus! {

/// The bytes of the selection that a request carries.
pub open spec fn carried(request: OutgoingRequestView) -> Seq<u8> {
    match request {
        OutgoingRequestView::Chunk(change) => change.data,
        _ => Seq::empty(),
    }
}

/// The bytes of the selection that a list of requests carries.
pub open spec fn all_carried(requests: Seq<OutgoingRequestView>) -> Seq<u8>
    decreases requests.len(),
{
    if requests.len() == 0 {
        Seq::empty()
    } else {
        carried(requests[0]) + all_carried(requests.drop_first())
    }
}

/// A round of the callback from some step on, every request sent: the transfer at the end, the
/// requests, and the action returned -- none if the round is not over after `fuel` requests, or
/// waits for the pipe to be read.
pub open spec fn round<C>(transfer: OutgoingView<C>, step: OutgoingStepView, fuel: nat) -> (
    OutgoingView<C>,
    Seq<OutgoingRequestView>,
    Option<OutgoingAction>,
)
    decreases fuel,
{
    match step {
        OutgoingStepView::Read { .. } => (transfer, Seq::empty(), None),
        OutgoingStepView::Return(action) => (transfer, Seq::empty(), Some(action)),
        OutgoingStepView::Send { request, stage } => {
            if fuel == 0 {
                (transfer, Seq::empty(), None)
            } else {
                let (next, step) = transfer.on_sent(stage);
                let (end, requests, action) = round(next, step, (fuel - 1) as nat);
                (end, seq![request] + requests, action)
            }
        },
    }
}

/// The round that follows a read of `bytes`. No round takes more than two requests.
pub open spec fn read_round<C>(
    transfer: OutgoingView<C>,
    atoms: Atoms,
    bytes: Seq<u8>,
    now: Instant,
) -> (OutgoingView<C>, Seq<OutgoingRequestView>, Option<OutgoingAction>) {
    let (next, step) = transfer.on_read(atoms, bytes, now);
    round(next, step, 2)
}

/// Something that happens to an outgoing transfer.
pub enum OutgoingOp {
    /// The callback is told that the pipe is readable.
    Readable,
    /// The callback is told what the pipe gave.
    Read { atoms: Atoms, bytes: Seq<u8>, now: Instant },
    /// The callback is told that a request was sent.
    Sent(OutgoingStage),
    /// The next chunk is flushed outside the callback.
    Flush,
    /// The flush has been sent; its chunk was the empty one or not.
    Flushed { last: bool },
    /// The requestor has deleted the property.
    Deleted,
    /// The next chunk is to be sent on the next delete.
    FlushDue,
}

/// The transfer once its holder has noted that the requestor deleted the property, and is about to
/// act on it.
///
/// No function here is told of a delete: that is the part of whoever holds the transfer, and this
/// and [`on_delete`] are what is assumed of it.
pub open spec fn deleted<C>(transfer: OutgoingView<C>) -> OutgoingView<C> {
    OutgoingView { property_set: false, flush_property_on_delete: false, ..transfer }
}

/// The transfer once its holder has dealt with a delete of the property, the flush sent if there
/// was one: the next chunk is flushed if one is due; and when the source has ended, a chunk stays
/// due until the last one has been sent.
pub open spec fn on_delete<C>(transfer: OutgoingView<C>, ended: bool) -> OutgoingView<C> {
    if transfer.flush_property_on_delete {
        let flushed = deleted(transfer).flushed();
        if ended && !flushed.sent_finished {
            flushed.flush_due()
        } else {
            flushed
        }
    } else {
        deleted(transfer)
    }
}

/// What `op` makes of a transfer.
pub open spec fn after_op<C>(transfer: OutgoingView<C>, op: OutgoingOp) -> OutgoingView<C> {
    match op {
        OutgoingOp::Readable => transfer.on_readable().0,
        OutgoingOp::Read { atoms, bytes, now } => transfer.on_read(atoms, bytes, now).0,
        OutgoingOp::Sent(stage) => transfer.on_sent(stage).0,
        OutgoingOp::Flush => transfer.chunk_taken(),
        OutgoingOp::Flushed { last } => transfer.chunk_set(last),
        OutgoingOp::Deleted => deleted(transfer),
        OutgoingOp::FlushDue => transfer.flush_due(),
    }
}

/// The bytes that `op` takes from the pipe.
pub open spec fn bytes_in(op: OutgoingOp) -> Seq<u8> {
    match op {
        OutgoingOp::Read { bytes, .. } => bytes,
        _ => Seq::empty(),
    }
}

/// The bytes that a step hands out to be put into the property.
pub open spec fn handed_out(step: OutgoingStepView) -> Seq<u8> {
    match step {
        OutgoingStepView::Send { request, .. } => carried(request),
        _ => Seq::empty(),
    }
}

/// The bytes that a transfer hands out on `op`.
pub open spec fn bytes_out<C>(transfer: OutgoingView<C>, op: OutgoingOp) -> Seq<u8> {
    match op {
        OutgoingOp::Readable => handed_out(transfer.on_readable().1),
        OutgoingOp::Read { atoms, bytes, now } => handed_out(transfer.on_read(atoms, bytes, now).1),
        OutgoingOp::Sent(stage) => handed_out(transfer.on_sent(stage).1),
        OutgoingOp::Flush => transfer.chunk().data,
        OutgoingOp::Flushed { .. } => Seq::empty(),
        OutgoingOp::Deleted => Seq::empty(),
        OutgoingOp::FlushDue => Seq::empty(),
    }
}

/// The transfer after all of `ops`.
pub open spec fn after_ops<C>(transfer: OutgoingView<C>, ops: Seq<OutgoingOp>) -> OutgoingView<C>
    decreases ops.len(),
{
    if ops.len() == 0 {
        transfer
    } else {
        after_op(after_ops(transfer, ops.drop_last()), ops.last())
    }
}

/// The bytes that all of `ops` take from the pipe.
pub open spec fn all_bytes_in(ops: Seq<OutgoingOp>) -> Seq<u8>
    decreases ops.len(),
{
    if ops.len() == 0 {
        Seq::empty()
    } else {
        all_bytes_in(ops.drop_last()) + bytes_in(ops.last())
    }
}

/// The bytes that a transfer hands out over all of `ops`.
pub open spec fn all_bytes_out<C>(transfer: OutgoingView<C>, ops: Seq<OutgoingOp>) -> Seq<u8>
    decreases ops.len(),
{
    if ops.len() == 0 {
        Seq::empty()
    } else {
        all_bytes_out(transfer, ops.drop_last()) + bytes_out(
            after_ops(transfer, ops.drop_last()),
            ops.last(),
        )
    }
}

/// Whatever happens to a transfer, in whatever order, the selection goes through it unchanged:
/// what it has handed out, followed by what it still holds, is what it held at first, followed by
/// what it has read. No byte is lost, doubled or moved.
pub proof fn law_selection_goes_through_unchanged<C>(transfer: OutgoingView<C>, ops: Seq<OutgoingOp>)
    ensures
        all_bytes_out(transfer, ops) + after_ops(transfer, ops).source_data
            == transfer.source_data + all_bytes_in(ops),
    decreases ops.len(),
{
    if ops.len() > 0 {
        let before = after_ops(transfer, ops.drop_last());
        law_selection_goes_through_unchanged(transfer, ops.drop_last());
        lemma_op_keeps_bytes(before, ops.last());
        let out = all_bytes_out(transfer, ops.drop_last());
        assert(all_bytes_out(transfer, ops) + after_ops(transfer, ops).source_data =~= out + (
        bytes_out(before, ops.last()) + after_op(before, ops.last()).source_data));
        assert(out + (before.source_data + bytes_in(ops.last())) =~= (out + before.source_data)
            + bytes_in(ops.last()));
        assert(transfer.source_data + all_bytes_in(ops) =~= (transfer.source_data + all_bytes_in(
            ops.drop_last(),
        )) + bytes_in(ops.last()));
    } else {
        assert(Seq::<u8>::empty() + transfer.source_data =~= transfer.source_data
            + Seq::<u8>::empty());
    }
}

/// The requestor is given what the source gave, all of it and nothing else: at any time what has
/// been handed out is the front of what was read, and with the buffer empty it is all of it.
pub proof fn law_requestor_is_given_what_was_read<C>(transfer: OutgoingView<C>, ops: Seq<OutgoingOp>)
    requires
        transfer.source_data.len() == 0,
    ensures
        ({
            let given = all_bytes_out(transfer, ops);
            let read = all_bytes_in(ops);
            &&& given.len() <= read.len()
            &&& given == read.take(given.len() as int)
            &&& after_ops(transfer, ops).source_data.len() == 0 ==> given == read
        }),
{
    law_selection_goes_through_unchanged(transfer, ops);
    let given = all_bytes_out(transfer, ops);
    let left = after_ops(transfer, ops).source_data;
    assert(transfer.source_data + all_bytes_in(ops) =~= all_bytes_in(ops));
    assert(given =~= (given + left).take(given.len() as int));
    if left.len() == 0 {
        assert(given + left =~= given);
    }
}

proof fn lemma_op_keeps_bytes<C>(transfer: OutgoingView<C>, op: OutgoingOp)
    ensures
        bytes_out(transfer, op) + after_op(transfer, op).source_data == transfer.source_data
            + bytes_in(op),
{
    let held = match op {
        OutgoingOp::Read { bytes, .. } => transfer.source_data + bytes,
        _ => transfer.source_data,
    };
    assert(held =~= transfer.source_data + bytes_in(op));
    assert(Seq::<u8>::empty() + held =~= held);
    let grown = OutgoingView { source_data: held, ..transfer };
    assert(held.take(grown.flush_len()) + held.skip(grown.flush_len()) =~= held);
}

/// Whatever happens to a transfer, it goes on answering the same request from the same source; once
/// it is incremental it stays so, and once its last chunk has gone out that stays so.
pub proof fn law_transfer_keeps_its_request<C>(transfer: OutgoingView<C>, ops: Seq<OutgoingOp>)
    ensures
        ({
            let after = after_ops(transfer, ops);
            &&& after.conn == transfer.conn
            &&& after.token == transfer.token
            &&& after.request == transfer.request
            &&& transfer.incr ==> after.incr
            &&& transfer.sent_finished ==> after.sent_finished
        }),
    decreases ops.len(),
{
    if ops.len() > 0 {
        law_transfer_keeps_its_request(transfer, ops.drop_last());
    }
}

/// A round takes the selection through unchanged as well: what its requests carry, followed by
/// what is left in the buffer, is what was buffered, followed by what was read.
pub proof fn law_round_carries_selection_unchanged<C>(
    transfer: OutgoingView<C>,
    atoms: Atoms,
    bytes: Seq<u8>,
    now: Instant,
)
    ensures
        ({
            let (end, requests, action) = read_round(transfer, atoms, bytes, now);
            all_carried(requests) + end.source_data == transfer.source_data + bytes
        }),
{
    reveal_with_fuel(round, 4);
    reveal_with_fuel(all_carried, 4);
    let grown = transfer.with_bytes(bytes, now);
    let held = grown.source_data;
    let len = grown.flush_len();
    assert(held.take(len) + held.skip(len) =~= held);
    let (end, requests, action) = read_round(transfer, atoms, bytes, now);
    assert(all_carried(requests) + end.source_data =~= held);
}

/// Between rounds, a transfer none of whose requests failed holds less than two chunks. It holds a
/// full one only while the requestor has yet to take the one before, and then the delete of
/// the property sends it on.
pub open spec fn bounded<C>(transfer: OutgoingView<C>) -> bool {
    &&& transfer.source_data.len() < 2 * INCR_CHUNK_SIZE
    &&& transfer.source_data.len() >= INCR_CHUNK_SIZE ==> transfer.held_up()
        && transfer.flush_property_on_delete
}

/// The buffer stays bounded, however much the source has to give: a round that reads the pipe
/// (one chunk at most) keeps it so.
pub proof fn law_round_keeps_buffer_bounded<C>(
    transfer: OutgoingView<C>,
    atoms: Atoms,
    bytes: Seq<u8>,
    now: Instant,
)
    requires
        bounded(transfer),
        transfer.on_readable().1 is Read,
        bytes.len() <= INCR_CHUNK_SIZE,
    ensures
        bounded(read_round(transfer, atoms, bytes, now).0),
{
    reveal_with_fuel(round, 4);
}

/// The buffer stays bounded, however slow the requestor is: a round that does not read the pipe
/// keeps it so, and so does a delete of the property.
pub proof fn law_delete_keeps_buffer_bounded<C>(transfer: OutgoingView<C>, ended: bool)
    requires
        bounded(transfer),
    ensures
        transfer.on_readable().0.source_data == transfer.source_data,
        bounded(transfer.on_readable().0),
        bounded(on_delete(transfer, ended)),
{
}

/// A turn that an outgoing transfer takes, every request sent.
pub enum OutgoingTurn {
    /// The pipe is readable, and gives `bytes` if it is read.
    Readable { atoms: Atoms, bytes: Seq<u8>, now: Instant },
    /// The requestor deletes the property; the source has ended or not.
    Deleted { ended: bool },
}

/// The transfer after all of `turns`.
pub open spec fn after_turns<C>(transfer: OutgoingView<C>, turns: Seq<OutgoingTurn>) -> OutgoingView<C>
    decreases turns.len(),
{
    if turns.len() == 0 {
        transfer
    } else {
        let before = after_turns(transfer, turns.drop_last());
        match turns.last() {
            OutgoingTurn::Readable { atoms, bytes, now } => if before.on_readable().1 is Read {
                read_round(before, atoms, bytes, now).0
            } else {
                before.on_readable().0
            },
            OutgoingTurn::Deleted { ended } => on_delete(before, ended),
        }
    }
}

/// A transfer that starts empty holds less than two chunks at any time, whatever the source has to
/// give and however slowly the requestor takes it: over any run of turns that read one chunk at
/// most.
pub proof fn law_buffer_stays_below_two_chunks<C>(transfer: OutgoingView<C>, turns: Seq<OutgoingTurn>)
    requires
        transfer.source_data.len() == 0,
        forall|i: int|
            0 <= i < turns.len() ==> (#[trigger] turns[i] matches OutgoingTurn::Readable {
                bytes,
                ..
            } ==> bytes.len() <= INCR_CHUNK_SIZE),
    ensures
        bounded(after_turns(transfer, turns)),
        after_turns(transfer, turns).source_data.len() < 2 * INCR_CHUNK_SIZE,
    decreases turns.len(),
{
    if turns.len() > 0 {
        let earlier = turns.drop_last();
        assert forall|i: int| 0 <= i < earlier.len() implies (
        #[trigger] earlier[i] matches OutgoingTurn::Readable { bytes, .. } ==> bytes.len()
            <= INCR_CHUNK_SIZE) by {
            assert(earlier[i] == turns[i]);
        }
        law_buffer_stays_below_two_chunks(transfer, earlier);
        let before = after_turns(transfer, earlier);
        match turns.last() {
            OutgoingTurn::Readable { atoms, bytes, now } => {
                assert(turns[turns.len() - 1] == turns.last());
                if before.on_readable().1 is Read {
                    law_round_keeps_buffer_bounded(before, atoms, bytes, now);
                }
            },
            OutgoingTurn::Deleted { ended } => {
                law_delete_keeps_buffer_bounded(before, ended);
            },
        }
    }
}

/// While a full chunk waits behind one that the requestor still holds, the pipe is not read: the
/// transfer waits for the property to be deleted, and the delete will send the chunk. In any other
/// state the pipe is read, one chunk at most.
pub proof fn law_full_buffer_is_not_read_into<C>(transfer: OutgoingView<C>)
    ensures
        transfer.incr && transfer.property_set && transfer.source_data.len() >= INCR_CHUNK_SIZE
            ==> transfer.on_readable().1 == OutgoingStepView::Return(OutgoingAction::WaitForDelete)
            && transfer.on_readable().0 == (OutgoingView {
            flush_property_on_delete: true,
            ..transfer
        }),
        !(transfer.incr && transfer.property_set && transfer.source_data.len() >= INCR_CHUNK_SIZE)
            ==> transfer.on_readable() == (
            transfer,
            OutgoingStepView::Read { at_most: INCR_CHUNK_SIZE },
        ),
{
}

/// Every round ends. It asks for the source to be awaited while the source goes on; at the end of
/// the source it is done, with everything sent, or done reading, with the rest to be sent when the
/// requestor deletes the property.
pub proof fn law_round_ends<C>(transfer: OutgoingView<C>, atoms: Atoms, bytes: Seq<u8>, now: Instant)
    ensures
        ({
            let (end, requests, action) = read_round(transfer, atoms, bytes, now);
            &&& bytes.len() > 0 ==> action == Some(OutgoingAction::WaitForReadable)
            &&& bytes.len() == 0 ==> {
                ||| action == Some(OutgoingAction::Done) && !end.incr && end.source_data.len() == 0
                ||| action == Some(OutgoingAction::DoneReading) && end.incr
                    && end.property_set && end.flush_property_on_delete
            }
            &&& requests.len() <= 2
        }),
{
    reveal_with_fuel(round, 4);
}

/// The transfer after `reads`, each of some bytes at some moment, one round each, from a source
/// that has not ended.
pub open spec fn after_reads<C>(
    transfer: OutgoingView<C>,
    atoms: Atoms,
    reads: Seq<(Seq<u8>, Instant)>,
) -> OutgoingView<C>
    decreases reads.len(),
{
    if reads.len() == 0 {
        transfer
    } else {
        let (bytes, now) = reads.last();
        read_round(after_reads(transfer, atoms, reads.drop_last()), atoms, bytes, now).0
    }
}

/// The requests of those rounds.
pub open spec fn requests_of_reads<C>(
    transfer: OutgoingView<C>,
    atoms: Atoms,
    reads: Seq<(Seq<u8>, Instant)>,
) -> Seq<OutgoingRequestView>
    decreases reads.len(),
{
    if reads.len() == 0 {
        Seq::empty()
    } else {
        let (bytes, now) = reads.last();
        requests_of_reads(transfer, atoms, reads.drop_last()) + read_round(
            after_reads(transfer, atoms, reads.drop_last()),
            atoms,
            bytes,
            now,
        ).1
    }
}

/// The bytes of `reads`, one after the other.
pub open spec fn bytes_of_reads(reads: Seq<(Seq<u8>, Instant)>) -> Seq<u8>
    decreases reads.len(),
{
    if reads.len() == 0 {
        Seq::empty()
    } else {
        bytes_of_reads(reads.drop_last()) + reads.last().0
    }
}

/// A selection of less than one chunk goes out whole: however and whenever the source deals it out,
/// nothing is sent until it ends; then all of it is put into the property in one piece, the
/// requestor is told so, and the transfer is done.
pub proof fn law_short_selection_goes_out_whole<C>(
    transfer: OutgoingView<C>,
    atoms: Atoms,
    reads: Seq<(Seq<u8>, Instant)>,
    now: Instant,
)
    requires
        !transfer.incr,
        transfer.source_data.len() == 0,
        forall|i: int| 0 <= i < reads.len() ==> (#[trigger] reads[i]).0.len() > 0,
        bytes_of_reads(reads).len() < INCR_CHUNK_SIZE,
    ensures
        requests_of_reads(transfer, atoms, reads).len() == 0,
        after_reads(transfer, atoms, reads).source_data == bytes_of_reads(reads),
        ({
            let (end, requests, action) = read_round(
                after_reads(transfer, atoms, reads),
                atoms,
                Seq::empty(),
                now,
            );
            &&& requests.len() == 2
            &&& requests[0] == OutgoingRequestView::Chunk(
                crate::x11::ReplaceProperty8View {
                    window: transfer.request.requestor,
                    property: transfer.request.property,
                    type_: transfer.request.target,
                    data: bytes_of_reads(reads),
                },
            )
            &&& requests[1] == OutgoingRequestView::Notify(transfer.request.answer(true))
            &&& action == Some(OutgoingAction::Done)
            &&& end.source_data.len() == 0
            &&& end.property_set
            &&& end.last_activity == now
        }),
{
    reveal_with_fuel(round, 4);
    lemma_short_reads_are_buffered(transfer, atoms, reads);
    let full = after_reads(transfer, atoms, reads);
    let grown = full.with_bytes(Seq::empty(), now);
    assert(grown.source_data =~= bytes_of_reads(reads));
    assert(grown.source_data.take(grown.flush_len()) =~= bytes_of_reads(reads));
}

proof fn lemma_short_reads_are_buffered<C>(
    transfer: OutgoingView<C>,
    atoms: Atoms,
    reads: Seq<(Seq<u8>, Instant)>,
)
    requires
        !transfer.incr,
        transfer.source_data.len() == 0,
        forall|i: int| 0 <= i < reads.len() ==> (#[trigger] reads[i]).0.len() > 0,
        bytes_of_reads(reads).len() < INCR_CHUNK_SIZE,
    ensures
        requests_of_reads(transfer, atoms, reads).len() == 0,
        after_reads(transfer, atoms, reads).source_data == bytes_of_reads(reads),
        !after_reads(transfer, atoms, reads).incr,
        after_reads(transfer, atoms, reads).request == transfer.request,
    decreases reads.len(),
{
    if reads.len() == 0 {
        assert(transfer.source_data =~= bytes_of_reads(reads));
    } else {
        let earlier = reads.drop_last();
        assert forall|i: int| 0 <= i < earlier.len() implies (#[trigger] earlier[i]).0.len() > 0 by {
            assert(earlier[i] == reads[i]);
        }
        lemma_short_reads_are_buffered(transfer, atoms, earlier);
    }
}

/// The first time a full chunk is buffered, the transfer becomes incremental: the property
/// announces it (type `INCR`, with a lower bound of the size), the requestor is told of the
/// property, and no byte of the selection goes out before the requestor has deleted it.
pub proof fn law_long_selection_is_announced<C>(
    transfer: OutgoingView<C>,
    atoms: Atoms,
    bytes: Seq<u8>,
    now: Instant,
)
    requires
        !transfer.incr,
        transfer.source_data.len() + bytes.len() >= INCR_CHUNK_SIZE,
    ensures
        ({
            let (end, requests, action) = read_round(transfer, atoms, bytes, now);
            &&& requests =~= seq![
                OutgoingRequestView::Announce(
                    crate::x11::ReplaceProperty32 {
                        window: transfer.request.requestor,
                        property: transfer.request.property,
                        type_: atoms.INCR,
                        value: 65536,
                    },
                ),
                OutgoingRequestView::Notify(transfer.request.answer(true)),
            ]
            &&& end.incr && end.property_set && end.flush_property_on_delete
            &&& end.source_data == transfer.source_data + bytes
        }),
{
    reveal_with_fuel(round, 4);
}

/// A transfer that has become incremental stays so, and goes on answering the same request; no
/// more than one chunk is put into the property at a time, and none while the requestor still
/// holds the last.
pub proof fn law_incremental_round<C>(
    transfer: OutgoingView<C>,
    atoms: Atoms,
    bytes: Seq<u8>,
    now: Instant,
)
    requires
        transfer.incr,
    ensures
        ({
            let (end, requests, action) = read_round(transfer, atoms, bytes, now);
            &&& end.incr
            &&& end.request == transfer.request
            &&& end.token == transfer.token
            &&& transfer.property_set ==> requests.len() == 0
            &&& requests.len() <= 1
            &&& requests.len() == 1 ==> requests[0] is Chunk && requests[0]->Chunk_0.data.len()
                <= INCR_CHUNK_SIZE && end.property_set
        }),
{
    reveal_with_fuel(round, 4);
}

/// A source that fails before it ends is answered with a refusal -- no property -- and the
/// transfer is done; it is left as it was.
pub proof fn law_failed_source_is_refused<C, E>(transfer: OutgoingView<C>, atoms: Atoms)
    ensures
        ({
            let (next, step) = transfer.on_event(atoms, OutgoingEvent::<E>::ReadFailed);
            let (end, requests, action) = round(next, step->Ok_0, 1);
            &&& step is Ok
            &&& requests =~= seq![OutgoingRequestView::Notify(transfer.request.answer(false))]
            &&& transfer.request.answer(false).event.property == 0
            &&& transfer.request.answer(false).destination == transfer.request.requestor
            &&& action == Some(OutgoingAction::Done)
            &&& end == transfer
        }),
{
    reveal_with_fuel(round, 3);
}

/// A transfer counts as finished only once its empty chunk has been sent: no event sets the flag
/// but the report that a chunk marked as the last went out, which marks the empty one and no other;
/// and a chunk that cannot be sent leaves it as it was.
pub proof fn law_finished_means_last_chunk_was_sent<C, E>(
    transfer: OutgoingView<C>,
    atoms: Atoms,
    event: OutgoingEvent<E>,
    error: E,
)
    ensures
        ({
            let (after, step) = transfer.on_event(atoms, event);
            let last = event matches OutgoingEvent::Sent(stage) && (stage
                == OutgoingStage::SendingRest { last: true } || stage
                == OutgoingStage::SendingWhole { last: true });
            let (failed, failure) = after.on_event(atoms, OutgoingEvent::SendFailed(error));
            &&& after.sent_finished <==> transfer.sent_finished || last
            &&& step matches Ok(
                OutgoingStepView::Send { request: OutgoingRequestView::Chunk(change), stage },
            ) ==> match stage {
                OutgoingStage::SendingRest { last } => last == (change.data.len() == 0),
                OutgoingStage::SendingWhole { last } => last == (change.data.len() == 0),
                _ => change.data.len() > 0,
            }
            &&& failed == after && failure == Err::<OutgoingStepView, E>(error)
        }),
{
}

/// A round finishes a transfer exactly when it sends the empty chunk.
pub proof fn law_round_finishes_with_empty_chunk<C>(
    transfer: OutgoingView<C>,
    atoms: Atoms,
    bytes: Seq<u8>,
    now: Instant,
)
    ensures
        ({
            let (end, requests, action) = read_round(transfer, atoms, bytes, now);
            end.sent_finished <==> transfer.sent_finished || (requests.len() > 0
                && requests[0] is Chunk && requests[0]->Chunk_0.data.len() == 0)
        }),
{
    reveal_with_fuel(round, 4);
}

/// What the callback makes of an event is what the event by itself makes of the transfer. A source
/// that fails asks for a refusal and changes nothing; a request that fails changes nothing either,
/// and its error is the result.
pub proof fn law_callback_takes_events_as_they_are<C, E>(
    transfer: OutgoingView<C>,
    atoms: Atoms,
    event: OutgoingEvent<E>,
)
    ensures
        match event {
            OutgoingEvent::Readable => transfer.on_event(atoms, event) == (
                transfer.on_readable().0,
                Ok::<OutgoingStepView, E>(transfer.on_readable().1),
            ),
            OutgoingEvent::Read { bytes, now } => transfer.on_event(atoms, event) == (
                transfer.on_read(atoms, bytes@, now).0,
                Ok::<OutgoingStepView, E>(transfer.on_read(atoms, bytes@, now).1),
            ),
            OutgoingEvent::ReadFailed => transfer.on_event(atoms, event) == (
                transfer,
                Ok::<OutgoingStepView, E>(
                    OutgoingStepView::Send {
                        request: OutgoingRequestView::Notify(transfer.request.answer(false)),
                        stage: OutgoingStage::Refusing,
                    },
                ),
            ),
            OutgoingEvent::Sent(stage) => transfer.on_event(atoms, event) == (
                transfer.on_sent(stage).0,
                Ok::<OutgoingStepView, E>(transfer.on_sent(stage).1),
            ),
            OutgoingEvent::SendFailed(error) => transfer.on_event(atoms, event) == (
                transfer,
                Err::<OutgoingStepView, E>(error),
            ),
        },
{
}

/// A chunk is addressed as the request asked -- to the requestor, in the property and of the target
/// named there -- and is the front of the buffer, as much as fits into 64 KiB. Taking it out moves
/// bytes and nothing else; only when it is reported sent is the property set, and the transfer
/// finished if the chunk was the last.
pub proof fn law_chunk_is_front_of_buffer<C>(transfer: OutgoingView<C>, last: bool)
    ensures
        transfer.chunk().window == transfer.request.requestor,
        transfer.chunk().property == transfer.request.property,
        transfer.chunk().type_ == transfer.request.target,
        transfer.chunk().data + transfer.chunk_taken().source_data == transfer.source_data,
        transfer.chunk().data.len() <= 65536,
        transfer.chunk().data.len() < 65536 ==> transfer.chunk_taken().source_data.len() == 0,
        ({
            let taken = transfer.chunk_taken();
            let set = transfer.chunk_set(last);
            &&& taken == OutgoingView { source_data: taken.source_data, ..transfer }
            &&& set.property_set
            &&& set.sent_finished <==> transfer.sent_finished || last
            &&& set == OutgoingView {
                property_set: set.property_set,
                sent_finished: set.sent_finished,
                ..transfer
            }
        }),
{
    assert(transfer.chunk().data + transfer.chunk_taken().source_data =~= transfer.source_data);
}

/// Reading the pipe by itself settles nothing with the requestor: whatever is read in whatever
/// state, the transfer is no more incremental, no more set and no more finished than before, until
/// a request has been sent. Bytes leave the buffer only in a chunk that is asked for; a chunk is
/// asked for when there is a full one, or an ended source, and nothing to wait for; and a flush
/// becomes due only where a full chunk, or the end of the source, waits for the requestor.
pub proof fn law_read_settles_nothing<C>(
    transfer: OutgoingView<C>,
    atoms: Atoms,
    bytes: Seq<u8>,
    now: Instant,
)
    ensures
        ({
            let (after, step) = transfer.on_read(atoms, bytes, now);
            let held = transfer.source_data + bytes;
            let full = held.len() >= 65536;
            let ended = bytes.len() == 0;
            let waits = transfer.incr && transfer.property_set;
            let announces = full && !transfer.incr;
            let sends = !waits && !announces && (full || ended);
            &&& after.conn == transfer.conn
            &&& after.token == transfer.token
            &&& after.request == transfer.request
            &&& after.incr == transfer.incr
            &&& after.property_set == transfer.property_set
            &&& after.sent_finished == transfer.sent_finished
            &&& after.last_activity == now
            &&& after.flush_property_on_delete <==> transfer.flush_property_on_delete || (waits && (
            full || ended))
            &&& match step {
                OutgoingStepView::Read { .. } => false,
                OutgoingStepView::Send { request: OutgoingRequestView::Announce(change), .. } => {
                    &&& announces
                    &&& change.window == transfer.request.requestor
                    &&& change.property == transfer.request.property
                    &&& change.type_ == atoms.INCR
                    &&& change.value == 65536
                    &&& after.source_data == held
                },
                OutgoingStepView::Send { request: OutgoingRequestView::Chunk(change), .. } => {
                    &&& sends
                    &&& change.window == transfer.request.requestor
                    &&& change.property == transfer.request.property
                    &&& change.type_ == transfer.request.target
                    &&& change.data + after.source_data == held
                    &&& change.data.len() <= 65536
                    &&& change.data.len() < 65536 ==> after.source_data.len() == 0
                },
                OutgoingStepView::Send { request: OutgoingRequestView::Notify(_), .. } => false,
                OutgoingStepView::Return(action) => {
                    &&& !announces && !sends
                    &&& action == if ended {
                        OutgoingAction::DoneReading
                    } else {
                        OutgoingAction::WaitForReadable
                    }
                    &&& after.source_data == held
                },
            }
        }),
{
    let held = transfer.source_data + bytes;
    let grown = transfer.with_bytes(bytes, now);
    assert(held.take(grown.flush_len()) + held.skip(grown.flush_len()) =~= held);
}

/// A request that has been sent settles what it was for and nothing else: an announcement makes the
/// transfer incremental, it and each chunk set the property, the empty chunk finishes the transfer,
/// and an answer settles nothing. A flush becomes due with the announcement, and at the end of an
/// incremental source; a chunk that goes out while the source goes on leaves that as it was. No
/// report of a request counts as movement.
pub proof fn law_sent_request_settles_what_it_was_for<C>(
    transfer: OutgoingView<C>,
    stage: OutgoingStage,
)
    ensures
        ({
            let (after, step) = transfer.on_sent(stage);
            let announced = stage is AnnouncingIncr;
            let chunk = stage is SendingChunk || stage is SendingRest || stage is SendingWhole;
            let last = stage == (OutgoingStage::SendingRest { last: true }) || stage == (
            OutgoingStage::SendingWhole { last: true });
            let ended = stage == (OutgoingStage::NotifyingIncr { ended: true }) || stage == (
            OutgoingStage::SendingChunk { ended: true });
            let goes_on = stage == (OutgoingStage::NotifyingIncr { ended: false }) || stage == (
            OutgoingStage::SendingChunk { ended: false });
            &&& after.conn == transfer.conn
            &&& after.token == transfer.token
            &&& after.request == transfer.request
            &&& after.last_activity == transfer.last_activity
            &&& after.incr <==> transfer.incr || announced
            &&& after.property_set <==> transfer.property_set || announced || chunk
            &&& after.sent_finished <==> transfer.sent_finished || last
            &&& after.flush_property_on_delete <==> {
                ||| transfer.flush_property_on_delete
                ||| announced
                ||| stage is SendingRest
                ||| ended && after.incr && after.property_set
            }
            &&& goes_on ==> step == OutgoingStepView::Return(OutgoingAction::WaitForReadable)
            &&& stage is SendingRest ==> step == OutgoingStepView::Return(
                OutgoingAction::DoneReading,
            )
            &&& stage is Refusing || stage is NotifyingWhole ==> step == OutgoingStepView::Return(
                OutgoingAction::Done,
            )
            &&& stage matches OutgoingStage::AnnouncingIncr { ended } ==> step == (
            OutgoingStepView::Send {
                request: OutgoingRequestView::Notify(transfer.request.answer(true)),
                stage: OutgoingStage::NotifyingIncr { ended },
            })
            &&& stage is SendingWhole ==> step == (OutgoingStepView::Send {
                request: OutgoingRequestView::Notify(transfer.request.answer(true)),
                stage: OutgoingStage::NotifyingWhole,
            })
            &&& ended ==> if after.incr && after.property_set {
                step == OutgoingStepView::Return(OutgoingAction::DoneReading)
            } else {
                &&& step matches OutgoingStepView::Send { request, stage }
                &&& request matches OutgoingRequestView::Chunk(change)
                &&& change.window == transfer.request.requestor
                &&& change.property == transfer.request.property
                &&& change.type_ == transfer.request.target
                &&& change.data + after.source_data == transfer.source_data
                &&& change.data.len() <= 65536
                &&& change.data.len() < 65536 ==> after.source_data.len() == 0
                &&& stage == if after.incr {
                    OutgoingStage::SendingRest { last: change.data.len() == 0 }
                } else {
                    OutgoingStage::SendingWhole { last: change.data.len() == 0 }
                }
            }
            &&& !ended || (after.incr && after.property_set) ==> after.source_data
                == transfer.source_data
        }),
{
    let held = transfer.source_data;
    assert(held.take(transfer.flush_len()) + held.skip(transfer.flush_len()) =~= held);
}

/// What a round comes to, in any state, for whatever is read: which requests go out, what is left,
/// and how the transfer stands with its requestor. An incremental transfer whose property is held
/// waits; any other sends a chunk when it has a full one or its source has ended, except that the
/// first full chunk is announced and kept.
pub proof fn law_round_in_full<C>(
    transfer: OutgoingView<C>,
    atoms: Atoms,
    bytes: Seq<u8>,
    now: Instant,
)
    ensures
        ({
            let (end, requests, action) = read_round(transfer, atoms, bytes, now);
            let held = transfer.source_data + bytes;
            let full = held.len() >= 65536;
            let ended = bytes.len() == 0;
            let waits = transfer.incr && transfer.property_set;
            let announces = full && !transfer.incr;
            let sends = !waits && !announces && (full || ended);
            &&& end.conn == transfer.conn
            &&& end.token == transfer.token
            &&& end.request == transfer.request
            &&& end.last_activity == now
            &&& end.incr <==> transfer.incr || full
            &&& end.property_set <==> transfer.property_set || announces || sends
            &&& end.flush_property_on_delete <==> {
                ||| transfer.flush_property_on_delete
                ||| announces
                ||| full && waits
                ||| ended && end.incr
            }
            &&& end.sent_finished <==> transfer.sent_finished || (sends && held.len() == 0)
            &&& action == Some(
                if !ended {
                    OutgoingAction::WaitForReadable
                } else if end.incr {
                    OutgoingAction::DoneReading
                } else {
                    OutgoingAction::Done
                },
            )
            &&& requests.len() == if announces {
                2int
            } else if !sends {
                0
            } else if transfer.incr {
                1
            } else {
                2
            }
            &&& requests.len() == 2 ==> requests[1] == OutgoingRequestView::Notify(
                transfer.request.answer(true),
            )
            &&& announces ==> {
                &&& requests[0] matches OutgoingRequestView::Announce(change)
                &&& change.window == transfer.request.requestor
                &&& change.property == transfer.request.property
                &&& change.type_ == atoms.INCR
                &&& change.value == 65536
            }
            &&& sends ==> {
                &&& requests[0] matches OutgoingRequestView::Chunk(change)
                &&& change.window == transfer.request.requestor
                &&& change.property == transfer.request.property
                &&& change.type_ == transfer.request.target
                &&& change.data + end.source_data == held
                &&& change.data.len() <= 65536
                &&& change.data.len() < 65536 ==> end.source_data.len() == 0
            }
            &&& !sends ==> end.source_data == held
        }),
{
    reveal_with_fuel(round, 4);
    let held = transfer.source_data + bytes;
    let grown = transfer.with_bytes(bytes, now);
    assert(held.take(grown.flush_len()) + held.skip(grown.flush_len()) =~= held);
}

/// While the source goes on, a round never leaves a flush due on delete with less than a full chunk
/// to flush, unless one was due before.
pub proof fn law_flush_falls_due_for_a_full_chunk<C>(
    transfer: OutgoingView<C>,
    atoms: Atoms,
    bytes: Seq<u8>,
    now: Instant,
)
    requires
        bytes.len() > 0,
        !transfer.flush_property_on_delete,
        read_round(transfer, atoms, bytes, now).0.flush_property_on_delete,
    ensures
        read_round(transfer, atoms, bytes, now).0.source_data.len() >= 65536,
        read_round(transfer, atoms, bytes, now).0.property_set,
        read_round(transfer, atoms, bytes, now).0.incr,
{
    reveal_with_fuel(round, 4);
}

/// While the source goes on, no requestor is told that the selection is complete: from a start with
/// nothing due, over any run of turns in which the pipe gives bytes and the requestor deletes the
/// property, the transfer is never finished; no round hands out an empty chunk; and neither does
/// the flush that a delete would call for.
pub proof fn law_open_source_is_never_finished<C>(
    transfer: OutgoingView<C>,
    turns: Seq<OutgoingTurn>,
    atoms: Atoms,
    bytes: Seq<u8>,
    now: Instant,
)
    requires
        !transfer.flush_property_on_delete,
        !transfer.sent_finished,
        forall|i: int|
            0 <= i < turns.len() ==> match #[trigger] turns[i] {
                OutgoingTurn::Readable { bytes, .. } => bytes.len() > 0,
                OutgoingTurn::Deleted { ended } => !ended,
            },
        bytes.len() > 0,
    ensures
        ({
            let after = after_turns(transfer, turns);
            let requests = read_round(after, atoms, bytes, now).1;
            &&& !after.sent_finished
            &&& after.flush_property_on_delete ==> after.source_data.len() >= 65536
                && after.chunk().data.len() > 0
            &&& forall|i: int|
                0 <= i < requests.len() && (#[trigger] requests[i]) is Chunk
                    ==> requests[i]->Chunk_0.data.len() > 0
        }),
{
    lemma_due_flush_is_full(transfer, turns);
    law_round_in_full(after_turns(transfer, turns), atoms, bytes, now);
}

proof fn lemma_due_flush_is_full<C>(transfer: OutgoingView<C>, turns: Seq<OutgoingTurn>)
    requires
        !transfer.flush_property_on_delete,
        !transfer.sent_finished,
        forall|i: int|
            0 <= i < turns.len() ==> match #[trigger] turns[i] {
                OutgoingTurn::Readable { bytes, .. } => bytes.len() > 0,
                OutgoingTurn::Deleted { ended } => !ended,
            },
    ensures
        !after_turns(transfer, turns).sent_finished,
        after_turns(transfer, turns).flush_property_on_delete ==> after_turns(
            transfer,
            turns,
        ).held_up(),
    decreases turns.len(),
{
    if turns.len() > 0 {
        let earlier = turns.drop_last();
        assert forall|i: int| 0 <= i < earlier.len() implies match #[trigger] earlier[i] {
            OutgoingTurn::Readable { bytes, .. } => bytes.len() > 0,
            OutgoingTurn::Deleted { ended } => !ended,
        } by {
            assert(earlier[i] == turns[i]);
        }
        lemma_due_flush_is_full(transfer, earlier);
        assert(turns[turns.len() - 1] == turns.last());
        let before = after_turns(transfer, earlier);
        match turns.last() {
            OutgoingTurn::Readable { atoms, bytes, now } => {
                law_round_in_full(before, atoms, bytes, now);
            },
            OutgoingTurn::Deleted { .. } => {},
        }
    }
}

/// The transfer after `n` flushes, all sent.
pub open spec fn after_flushes<C>(transfer: OutgoingView<C>, n: nat) -> OutgoingView<C>
    decreases n,
{
    if n == 0 {
        transfer
    } else {
        after_flushes(transfer, (n - 1) as nat).flushed()
    }
}

/// Flushes bring out what is buffered and then the empty chunk that ends the transfer. A flush is
/// empty exactly when nothing is left; `n` flushes leave nothing exactly when the buffer fits into
/// `n` chunks; and the transfer is finished exactly from the first empty one on: the flush after the
/// last that took anything.
pub proof fn law_flushes_finish_transfer<C>(transfer: OutgoingView<C>, n: nat)
    ensures
        transfer.chunk().data.len() == 0 <==> transfer.source_data.len() == 0,
        after_flushes(transfer, n).source_data.len() == 0 <==> transfer.source_data.len() <= n
            * INCR_CHUNK_SIZE,
        after_flushes(transfer, n).sent_finished <==> {
            ||| transfer.sent_finished
            ||| n > 0 && (n - 1) * INCR_CHUNK_SIZE >= transfer.source_data.len()
        },
    decreases n,
{
    lemma_flushes_shorten(transfer, n);
    if n > 0 {
        let before = after_flushes(transfer, (n - 1) as nat);
        law_flushes_finish_transfer(transfer, (n - 1) as nat);
        lemma_flushes_shorten(transfer, (n - 1) as nat);
        assert(before.chunk().data.len() == before.flush_len());
        assert((n - 1) * INCR_CHUNK_SIZE == (n - 2) * INCR_CHUNK_SIZE + INCR_CHUNK_SIZE)
            by (nonlinear_arith);
    }
}

proof fn lemma_flushes_shorten<C>(transfer: OutgoingView<C>, n: nat)
    ensures
        after_flushes(transfer, n).source_data.len() == if transfer.source_data.len() <= n
            * INCR_CHUNK_SIZE {
            0
        } else {
            transfer.source_data.len() - n * INCR_CHUNK_SIZE
        },
    decreases n,
{
    if n > 0 {
        lemma_flushes_shorten(transfer, (n - 1) as nat);
        assert(n * INCR_CHUNK_SIZE == (n - 1) * INCR_CHUNK_SIZE + INCR_CHUNK_SIZE)
            by (nonlinear_arith);
    }
}

/// The transfer after `n` deletes of the property, the source having ended.
pub open spec fn after_deletes<C>(transfer: OutgoingView<C>, n: nat) -> OutgoingView<C>
    decreases n,
{
    if n == 0 {
        transfer
    } else {
        on_delete(after_deletes(transfer, (n - 1) as nat), true)
    }
}

/// Once the source has ended and a chunk is due -- which is how a round that is done reading leaves
/// the transfer -- the deletes of the requestor draw out the rest of the selection and then the
/// empty chunk that ends it, given that the holder deals with each delete as [`on_delete`] says.
/// `n` deletes leave nothing exactly when the buffer fits into `n` chunks; the transfer is finished
/// exactly from the first empty chunk on; and until then a chunk stays due.
pub proof fn law_deletes_finish_transfer<C>(transfer: OutgoingView<C>, n: nat)
    requires
        transfer.flush_property_on_delete,
        !transfer.sent_finished,
    ensures
        after_deletes(transfer, n).source_data.len() == 0 <==> transfer.source_data.len() <= n
            * INCR_CHUNK_SIZE,
        after_deletes(transfer, n).sent_finished <==> n > 0 && (n - 1) * INCR_CHUNK_SIZE
            >= transfer.source_data.len(),
        after_deletes(transfer, n).flush_property_on_delete
            <==> !after_deletes(transfer, n).sent_finished,
{
    lemma_deletes_flush(transfer, n);
    law_flushes_finish_transfer(transfer, n);
}

proof fn lemma_deletes_flush<C>(transfer: OutgoingView<C>, n: nat)
    requires
        transfer.flush_property_on_delete,
        !transfer.sent_finished,
    ensures
        after_deletes(transfer, n).source_data == after_flushes(transfer, n).source_data,
        after_deletes(transfer, n).sent_finished == after_flushes(transfer, n).sent_finished,
        after_deletes(transfer, n).flush_property_on_delete
            <==> !after_deletes(transfer, n).sent_finished,
        after_deletes(transfer, n).sent_finished ==> after_deletes(transfer, n).source_data.len()
            == 0,
    decreases n,
{
    if n > 0 {
        let before = after_flushes(transfer, (n - 1) as nat);
        lemma_deletes_flush(transfer, (n - 1) as nat);
        assert(before.chunk().data.len() == before.flush_len());
        if before.source_data.len() == 0 {
            assert(before.source_data.skip(0) =~= before.source_data);
        }
    }
}

} // verus!
