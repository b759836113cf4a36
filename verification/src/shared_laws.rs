//! What holds of the answers, the clock, the pipes and the limits that transfers share, and of how
//! their parts are seen.

use crate::clock::Instant;
use crate::incoming::IncomingTransfer;
use crate::limits::INCR_CHUNK_SIZE;
use crate::limits::MAX_OUTGOING_PER_CLIENT;
use crate::limits::MAX_OUTGOING_TRANSFERS;
use crate::limits::MAX_SELECTION_TRANSFERS;
use crate::limits::OWNER_CHANGE_GRACE;
use crate::limits::PROPERTY_SLICE;
use crate::limits::SELECTION_TRANSFER_TIMEOUT;
use crate::limits::SWEEP_INTERVAL;
use crate::outgoing::OutgoingRequest;
use crate::outgoing::OutgoingRequestView;
use crate::outgoing::OutgoingStep;
use crate::outgoing::OutgoingStepView;
use crate::outgoing::OutgoingTransfer;
use crate::x11::ReplaceProperty8;
use crate::x11::SelectionRequestEvent;
use vstd::prelude::*;

verus! {

/// An answer goes to whoever asked and repeats what was asked: requestor, time, selection and
/// target are those of the request, and so is the property when the selection was converted. When
/// it was not, no property is named.
pub proof fn law_answer_repeats_request(request: SelectionRequestEvent, success: bool)
    ensures
        !request.answer(success).propagate,
        request.answer(success).destination == request.requestor,
        request.answer(success).event_mask == 0,
        request.answer(success).event.response_type == 31,
        request.answer(success).event.sequence == 0,
        request.answer(success).event.time == request.time,
        request.answer(success).event.requestor == request.requestor,
        request.answer(success).event.selection == request.selection,
        request.answer(success).event.target == request.target,
        success ==> request.answer(success).event.property == request.property,
        !success ==> request.answer(success).event.property == 0,
{
}

/// Two requests with the same answer ask for the same thing: nothing that a requestor can tell its
/// requests apart by is lost in a successful answer.
pub proof fn law_answers_tell_requests_apart(a: SelectionRequestEvent, b: SelectionRequestEvent)
    requires
        a.answer(true) == b.answer(true),
    ensures
        a.time == b.time,
        a.requestor == b.requestor,
        a.selection == b.selection,
        a.target == b.target,
        a.property == b.property,
{
}

/// The time between two readings, forward, is their difference; backward, none. So either way
/// round the two add up to the distance between the readings.
pub proof fn law_elapsed_time(early: Instant, late: Instant)
    requires
        early.nanos <= late.nanos,
    ensures
        early.nanos + late.since(early) == late.nanos,
        early.since(late) == 0,
{
}

/// A pipe counts as closed exactly when it could be polled and bit 3 (error) or bit 4 (hang-up) of
/// what it reported is set, whatever the other bits.
pub proof fn law_closed_pipe_reports_error_or_hang_up<E>(revents: u16, error: E)
    ensures
        crate::poll::closed_by_reader(Ok::<u16, E>(revents)) <==> (revents / 8) % 2 == 1 || (revents
            / 16) % 2 == 1,
        !crate::poll::closed_by_reader(Err::<u16, E>(error)),
{
    assert((revents & 8 != 0) == ((revents / 8) % 2 == 1)) by (bit_vector);
    assert((revents & 16 != 0) == ((revents / 16) % 2 == 1)) by (bit_vector);
}

/// The limits, in bytes, 32-bit units, transfers and nanoseconds. A slice is a chunk, counted in
/// units of four bytes.
pub proof fn law_limits()
    ensures
        INCR_CHUNK_SIZE == 65536,
        PROPERTY_SLICE * 4 == INCR_CHUNK_SIZE,
        MAX_SELECTION_TRANSFERS == 8,
        MAX_OUTGOING_PER_CLIENT == 4,
        MAX_OUTGOING_TRANSFERS == 16,
        SELECTION_TRANSFER_TIMEOUT == 30 * 1_000_000_000,
        OWNER_CHANGE_GRACE == 1_000_000_000,
        SWEEP_INTERVAL == 1_000_000_000,
{
}

/// A transfer into a Wayland client is seen as it is, field by field.
pub proof fn law_incoming_is_seen_as_it_is<R>(transfer: IncomingTransfer<R>)
    ensures
        transfer@.token == transfer.token,
        transfer@.window == transfer.window,
        transfer@.reader == transfer.reader,
        transfer@.incr == transfer.incr,
        transfer@.source_data == transfer.source_data@,
        transfer@.offset == transfer.offset,
        transfer@.more == transfer.more,
        transfer@.delete_sent == transfer.delete_sent,
        transfer@.awaiting_chunk == transfer.awaiting_chunk,
        transfer@.last_activity == transfer.last_activity,
        transfer@.generation == transfer.generation,
{
}

/// A transfer to an X requestor is seen as it is, field by field.
pub proof fn law_outgoing_is_seen_as_it_is<C>(transfer: OutgoingTransfer<C>)
    ensures
        transfer@.conn == transfer.conn,
        transfer@.token == transfer.token,
        transfer@.incr == transfer.incr,
        transfer@.source_data == transfer.source_data@,
        transfer@.request == transfer.request,
        transfer@.property_set == transfer.property_set,
        transfer@.flush_property_on_delete == transfer.flush_property_on_delete,
        transfer@.sent_finished == transfer.sent_finished,
        transfer@.last_activity == transfer.last_activity,
{
}

/// A step that an outgoing transfer asks for, and the request in it, are seen as they are.
pub proof fn law_outgoing_step_is_seen_as_it_is(step: OutgoingStep, change: ReplaceProperty8)
    ensures
        change@.window == change.window,
        change@.property == change.property,
        change@.type_ == change.type_,
        change@.data == change.data@,
        match step {
            OutgoingStep::Read { at_most } => step@ == (OutgoingStepView::Read { at_most }),
            OutgoingStep::Return(action) => step@ == OutgoingStepView::Return(action),
            OutgoingStep::Send { request, stage } => step@ == (OutgoingStepView::Send {
                request: request@,
                stage,
            }) && match request {
                OutgoingRequest::Announce(sent) => request@ == OutgoingRequestView::Announce(sent),
                OutgoingRequest::Chunk(sent) => request@ == OutgoingRequestView::Chunk(sent@),
                OutgoingRequest::Notify(sent) => request@ == OutgoingRequestView::Notify(sent),
            },
        },
{
}

} // verus!
