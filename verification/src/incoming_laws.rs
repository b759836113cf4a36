//! What holds of every incoming transfer.

use crate::clock::Instant;
use crate::incoming::IncomingAction;
use crate::incoming::IncomingEvent;
use crate::incoming::IncomingStep;
use crate::incoming::IncomingView;
use crate::limits::INCR_CHUNK_SIZE;
use crate::limits::PROPERTY_SLICE;
use crate::x11::Atoms;
use vstd::prelude::*;

verus! {

/// The bytes of the property that an event brings.
pub open spec fn bytes_in<W, E>(event: IncomingEvent<W, E>) -> Seq<u8> {
    match event {
        IncomingEvent::SliceRead { reply: Ok(reply), .. } => reply.value@,
        _ => Seq::empty(),
    }
}

/// The bytes that the pipe takes from a transfer in an event.
pub open spec fn bytes_out<R, W, E>(
    transfer: IncomingView<R>,
    event: IncomingEvent<W, E>,
) -> Seq<u8> {
    match event {
        IncomingEvent::Written { result: Ok(len), .. } if transfer.source_data.len() > 0 =>
            transfer.source_data.take(len as int),
        _ => Seq::empty(),
    }
}

/// The transfer after all of `events`.
pub open spec fn after_events<R, W, E>(
    transfer: IncomingView<R>,
    atoms: Atoms,
    events: Seq<IncomingEvent<W, E>>,
) -> IncomingView<R>
    decreases events.len(),
{
    if events.len() == 0 {
        transfer
    } else {
        after_events(transfer, atoms, events.drop_last()).on_event(atoms, events.last()).0
    }
}

/// Whether all of `events` can happen to the transfer, one after the other.
pub open spec fn can_all_happen<R, W, E>(
    transfer: IncomingView<R>,
    atoms: Atoms,
    events: Seq<IncomingEvent<W, E>>,
) -> bool
    decreases events.len(),
{
    events.len() > 0 ==> {
        &&& can_all_happen(transfer, atoms, events.drop_last())
        &&& after_events(transfer, atoms, events.drop_last()).can_happen(events.last())
    }
}

/// The bytes of the property that all of `events` bring.
pub open spec fn all_bytes_in<W, E>(events: Seq<IncomingEvent<W, E>>) -> Seq<u8>
    decreases events.len(),
{
    if events.len() == 0 {
        Seq::empty()
    } else {
        all_bytes_in(events.drop_last()) + bytes_in(events.last())
    }
}

/// The bytes that the pipe takes over all of `events`.
pub open spec fn all_bytes_out<R, W, E>(
    transfer: IncomingView<R>,
    atoms: Atoms,
    events: Seq<IncomingEvent<W, E>>,
) -> Seq<u8>
    decreases events.len(),
{
    if events.len() == 0 {
        Seq::empty()
    } else {
        all_bytes_out(transfer, atoms, events.drop_last()) + bytes_out(
            after_events(transfer, atoms, events.drop_last()),
            events.last(),
        )
    }
}

/// Whatever happens to a transfer, in whatever order, the selection goes through it unchanged:
/// what its reader has been given, followed by what is still buffered, is what was buffered at
/// first, followed by what was read from the property. No byte is lost, doubled or moved.
pub proof fn law_selection_goes_through_unchanged<R, W, E>(
    transfer: IncomingView<R>,
    atoms: Atoms,
    events: Seq<IncomingEvent<W, E>>,
)
    requires
        can_all_happen(transfer, atoms, events),
    ensures
        all_bytes_out(transfer, atoms, events) + after_events(transfer, atoms, events).source_data
            == transfer.source_data + all_bytes_in(events),
    decreases events.len(),
{
    if events.len() > 0 {
        let before = after_events(transfer, atoms, events.drop_last());
        law_selection_goes_through_unchanged(transfer, atoms, events.drop_last());
        lemma_event_keeps_bytes(before, atoms, events.last());
        let out = all_bytes_out(transfer, atoms, events.drop_last());
        let after = after_events(transfer, atoms, events);
        assert(all_bytes_out(transfer, atoms, events) + after.source_data =~= out + (bytes_out(
            before,
            events.last(),
        ) + after.source_data));
        assert(out + (before.source_data + bytes_in(events.last())) =~= (out + before.source_data)
            + bytes_in(events.last()));
        assert(transfer.source_data + all_bytes_in(events) =~= (transfer.source_data + all_bytes_in(
            events.drop_last(),
        )) + bytes_in(events.last()));
    } else {
        assert(Seq::<u8>::empty() + transfer.source_data =~= transfer.source_data
            + Seq::<u8>::empty());
    }
}

proof fn lemma_event_keeps_bytes<R, W, E>(
    transfer: IncomingView<R>,
    atoms: Atoms,
    event: IncomingEvent<W, E>,
)
    requires
        transfer.can_happen(event),
    ensures
        bytes_out(transfer, event) + transfer.on_event(atoms, event).0.source_data
            == transfer.source_data + bytes_in(event),
{
    let after = transfer.on_event(atoms, event).0;
    assert(bytes_out(transfer, event) + after.source_data =~= transfer.source_data + bytes_in(
        event,
    ));
}

/// Whatever happens to a transfer, it stays bound to its window, its reader, its source on the
/// event loop and the owner that answered it, and is incremental or not as it was.
pub proof fn law_transfer_keeps_its_ends<R, W, E>(
    transfer: IncomingView<R>,
    atoms: Atoms,
    events: Seq<IncomingEvent<W, E>>,
)
    ensures
        ({
            let after = after_events(transfer, atoms, events);
            &&& after.token == transfer.token
            &&& after.window == transfer.window
            &&& after.reader == transfer.reader
            &&& after.generation == transfer.generation
            &&& after.incr == transfer.incr
        }),
    decreases events.len(),
{
    if events.len() > 0 {
        law_transfer_keeps_its_ends(transfer, atoms, events.drop_last());
    }
}

/// A transfer reads the property only when its buffer is empty, and asks for one slice at a time,
/// the one at its offset, without deleting it. So with replies that keep to what was asked for it
/// never buffers more than one slice, however large the property.
pub proof fn law_one_slice_is_buffered<R, W, E>(
    transfer: IncomingView<R>,
    atoms: Atoms,
    event: IncomingEvent<W, E>,
    value: Seq<u8>,
    bytes_after: u32,
    now: Instant,
)
    requires
        transfer.can_happen(event),
        value.len() <= 4 * PROPERTY_SLICE,
    ensures
        ({
            let (asking, step) = transfer.on_event(atoms, event);
            step matches Ok(IncomingStep::ReadSlice(request)) ==> {
                &&& asking.source_data.len() == 0
                &&& request.long_offset == asking.offset
                &&& request.long_length == PROPERTY_SLICE
                &&& !request.delete
                &&& asking.with_slice(value, bytes_after, now).source_data == value
                &&& asking.with_slice(value, bytes_after, now).source_data.len() <= INCR_CHUNK_SIZE
            }
        }),
        !(event is SliceRead) ==> transfer.on_event(atoms, event).0.source_data.len()
            <= transfer.source_data.len(),
{
    let (asking, step) = transfer.on_event(atoms, event);
    if asking.source_data.len() == 0 {
        assert(asking.source_data + value =~= value);
    }
}

/// Every slice of every transfer, incremental or not and in whatever state, is asked for in the same
/// way: at the transfer's offset, one slice long, from the property of its own window, whatever the
/// property's type, and without deleting it. And a delete is asked for on that property alone.
pub proof fn law_slices_are_asked_for_alike<R, W, E>(
    transfer: IncomingView<R>,
    atoms: Atoms,
    event: IncomingEvent<W, E>,
)
    ensures
        transfer.slice_request(atoms).window == transfer.window,
        transfer.slice_request(atoms).property == atoms._WL_SELECTION,
        transfer.slice_request(atoms).type_ == 0,
        transfer.slice_request(atoms).long_offset == transfer.offset,
        transfer.slice_request(atoms).long_length == 16384,
        !transfer.slice_request(atoms).delete,
        transfer.chunk_request(atoms).window == transfer.window,
        transfer.chunk_request(atoms).property == atoms._WL_SELECTION,
        transfer.on_event(atoms, event).1 matches Ok(IncomingStep::ReadSlice(request)) ==> {
            &&& request.window == transfer.window
            &&& request.property == atoms._WL_SELECTION
            &&& request.type_ == 0
            &&& request.long_offset == transfer.offset
            &&& request.long_length == 16384
            &&& !request.delete
        },
        transfer.on_event(atoms, event).1 matches Ok(IncomingStep::RequestChunk(request)) ==> {
            &&& request.window == transfer.window
            &&& request.property == atoms._WL_SELECTION
        },
{
}

/// A slice is added at the end of the buffer and counts as movement. The offset moves on by the
/// whole 32-bit units read, as far as it can; there is more exactly if the server says so and there
/// is an offset left to ask at. Nothing else changes, whatever kind of transfer it is.
pub proof fn law_slice_is_added<R>(
    transfer: IncomingView<R>,
    value: Seq<u8>,
    bytes_after: u32,
    now: Instant,
)
    ensures
        ({
            let after = transfer.with_slice(value, bytes_after, now);
            let units = value.len() as int / 4;
            &&& after.source_data == transfer.source_data + value
            &&& after.last_activity == now
            &&& transfer.offset + units <= u32::MAX ==> after.offset == transfer.offset + units
            &&& transfer.offset + units > u32::MAX ==> after.offset == u32::MAX
            &&& after.more <==> bytes_after > 0 && after.offset != u32::MAX
            &&& after.token == transfer.token
            &&& after.window == transfer.window
            &&& after.reader == transfer.reader
            &&& after.incr == transfer.incr
            &&& after.delete_sent == transfer.delete_sent
            &&& after.awaiting_chunk == transfer.awaiting_chunk
            &&& after.generation == transfer.generation
        }),
{
}

/// Reading a property in two slices comes to the same as reading it in one, if the first is a whole
/// number of units: the same bytes, the same place to go on, the same answer on whether there is
/// more.
pub proof fn law_slices_add_up<R>(
    transfer: IncomingView<R>,
    first: Seq<u8>,
    first_after: u32,
    second: Seq<u8>,
    bytes_after: u32,
    then: Instant,
    now: Instant,
)
    requires
        first.len() % 4 == 0,
    ensures
        transfer.with_slice(first, first_after, then).with_slice(second, bytes_after, now)
            == transfer.with_slice(first + second, bytes_after, now),
{
    assert((transfer.source_data + first) + second =~= transfer.source_data + (first + second));
    assert((first + second).len() as int / 4 == first.len() as int / 4 + second.len() as int / 4);
}

/// Writing takes bytes off the front of the buffer and nothing else: what the pipe took, followed by
/// what is left, is what was there. It counts as movement exactly if the pipe took something.
pub proof fn law_write_takes_from_the_front<R>(
    transfer: IncomingView<R>,
    len: int,
    now: Instant,
)
    requires
        0 <= len <= transfer.source_data.len(),
    ensures
        ({
            let after = transfer.without_front(len, now);
            &&& transfer.source_data.take(len) + after.source_data == transfer.source_data
            &&& len > 0 ==> after.last_activity == now
            &&& len == 0 ==> after.last_activity == transfer.last_activity
            &&& after == IncomingView {
                source_data: after.source_data,
                last_activity: after.last_activity,
                ..transfer
            }
        }),
{
    assert(transfer.source_data.take(len) + transfer.without_front(len, now).source_data
        =~= transfer.source_data);
}

/// A transfer waits on its owner from the moment the delete is sent, through the moment it is seen,
/// until the chunk comes. Asking for a chunk starts that wait, and the next property from its
/// start; it is no movement, and changes nothing else.
pub proof fn law_asking_for_a_chunk_starts_the_wait<R>(transfer: IncomingView<R>)
    ensures
        transfer.awaits_owner() <==> transfer.delete_sent || transfer.awaiting_chunk,
        ({
            let after = transfer.chunk_requested();
            &&& after.awaits_owner()
            &&& after.delete_sent
            &&& !after.awaiting_chunk
            &&& !after.more
            &&& after.offset == 0
            &&& after == IncomingView {
                offset: after.offset,
                more: after.more,
                delete_sent: after.delete_sent,
                awaiting_chunk: after.awaiting_chunk,
                ..transfer
            }
        }),
{
}

/// What an event comes to, in any state. A pipe that becomes writable is written if there is
/// something to write. A buffer that is empty leads on to the next slice, or else the next chunk,
/// or else the end; one that is not waits for the pipe, unless the reader is gone. A slice that has
/// come waits for the pipe, a chunk that was asked for waits for the property. And a request that
/// failed changes nothing and is reported as it is.
pub proof fn law_event_in_full<R, W, E>(
    transfer: IncomingView<R>,
    atoms: Atoms,
    event: IncomingEvent<W, E>,
)
    requires
        transfer.can_happen(event),
    ensures
        ({
            let (after, result) = transfer.on_event(atoms, event);
            let empty = transfer.source_data.len() == 0;
            let leads_on = if after.more {
                result matches Ok(IncomingStep::ReadSlice(_))
            } else if after.incr {
                result matches Ok(IncomingStep::RequestChunk(_))
            } else {
                result == Ok::<IncomingStep, E>(IncomingStep::Return(IncomingAction::Done))
            };
            match event {
                IncomingEvent::Writable => {
                    &&& after == transfer
                    &&& if empty {
                        leads_on
                    } else {
                        result == Ok::<IncomingStep, E>(IncomingStep::Write)
                    }
                },
                IncomingEvent::Written { result: written, now } => {
                    &&& empty ==> after == transfer && leads_on
                    &&& !empty && written is Err ==> after == transfer && result == Ok::<
                        IncomingStep,
                        E,
                    >(IncomingStep::Return(IncomingAction::Done))
                    &&& !empty && written is Ok ==> {
                        let len = written->Ok_0;
                        &&& transfer.source_data.take(len as int) + after.source_data
                            == transfer.source_data
                        &&& after.last_activity == if len > 0 {
                            now
                        } else {
                            transfer.last_activity
                        }
                        &&& after == IncomingView {
                            source_data: after.source_data,
                            last_activity: after.last_activity,
                            ..transfer
                        }
                        &&& if after.source_data.len() == 0 {
                            leads_on
                        } else {
                            result == Ok::<IncomingStep, E>(
                                IncomingStep::Return(IncomingAction::WaitForWritable),
                            )
                        }
                    }
                },
                IncomingEvent::SliceRead { reply: Ok(reply), now } => {
                    &&& after == transfer.with_slice(reply.value@, reply.bytes_after, now)
                    &&& result == Ok::<IncomingStep, E>(
                        IncomingStep::Return(IncomingAction::WaitForWritable),
                    )
                },
                IncomingEvent::ChunkRequested(Ok(_)) => {
                    &&& after == transfer.chunk_requested()
                    &&& result == Ok::<IncomingStep, E>(
                        IncomingStep::Return(IncomingAction::WaitForProperty),
                    )
                },
                IncomingEvent::SliceRead { reply: Err(error), .. } => after == transfer && result
                    == Err::<IncomingStep, E>(error),
                IncomingEvent::ChunkRequested(Err(error)) => after == transfer && result == Err::<
                    IncomingStep,
                    E,
                >(error),
            }
        }),
{
    if let IncomingEvent::Written { result: Ok(len), .. } = event {
        if transfer.source_data.len() > 0 {
            assert(transfer.source_data.take(len as int) + transfer.on_event(
                atoms,
                event,
            ).0.source_data =~= transfer.source_data);
        }
    }
}

/// A pipe can take any part of the buffer, from nothing to all of it, or fail; and any reply can
/// come.
pub proof fn law_pipe_may_take_any_part<R, W, E>(
    transfer: IncomingView<R>,
    event: IncomingEvent<W, E>,
)
    ensures
        transfer.can_happen(event) <==> !(event matches IncomingEvent::Written {
            result: Ok(len),
            ..
        } && len > transfer.source_data.len() > 0),
{
}

/// Whether slices come only when asked for: each reply follows a step that asks for one, and
/// brings no more than was asked for.
pub open spec fn slices_as_asked<R, W, E>(
    transfer: IncomingView<R>,
    atoms: Atoms,
    events: Seq<IncomingEvent<W, E>>,
) -> bool
    decreases events.len(),
{
    events.len() > 0 ==> {
        let earlier = events.drop_last();
        &&& slices_as_asked(transfer, atoms, earlier)
        &&& events.last() matches IncomingEvent::SliceRead { reply, .. } ==> {
            &&& earlier.len() > 0
            &&& after_events(transfer, atoms, earlier.drop_last()).on_event(
                atoms,
                earlier.last(),
            ).1 matches Ok(IncomingStep::ReadSlice(_))
            &&& reply matches Ok(reply) ==> reply.value@.len() <= 4 * PROPERTY_SLICE
        }
    }
}

/// A transfer never buffers more than one slice, however large the owner makes the property: as
/// long as the steps of the callback are followed, the buffer stays within one slice over any
/// run of events.
pub proof fn law_buffer_stays_within_one_slice<R, W, E>(
    transfer: IncomingView<R>,
    atoms: Atoms,
    events: Seq<IncomingEvent<W, E>>,
)
    requires
        transfer.source_data.len() <= INCR_CHUNK_SIZE,
        can_all_happen(transfer, atoms, events),
        slices_as_asked(transfer, atoms, events),
    ensures
        after_events(transfer, atoms, events).source_data.len() <= INCR_CHUNK_SIZE,
    decreases events.len(),
{
    if events.len() > 0 {
        law_buffer_stays_within_one_slice(transfer, atoms, events.drop_last());
    }
}

/// A transfer is done, as far as its reader's end goes, only when the reader has been given all
/// there is: with the pipe intact, the callback returns `Done` exactly when the buffer is empty,
/// the property has no more, and no further chunk is to come.
pub proof fn law_done_means_complete<R, W, E>(
    transfer: IncomingView<R>,
    atoms: Atoms,
    event: IncomingEvent<W, E>,
)
    requires
        transfer.can_happen(event),
        event is Writable || (event matches IncomingEvent::Written { result, .. } && result is Ok),
    ensures
        ({
            let (after, step) = transfer.on_event(atoms, event);
            step == Ok::<IncomingStep, E>(IncomingStep::Return(IncomingAction::Done)) <==> {
                &&& after.source_data.len() == 0
                &&& !after.more
                &&& !after.incr
            }
        }),
{
}

/// A reader that has gone away ends the transfer: with something buffered and a pipe that fails,
/// the callback returns `Done`, and the transfer is left as it was.
pub proof fn law_lost_reader_ends_transfer<R, W, E>(
    transfer: IncomingView<R>,
    atoms: Atoms,
    error: W,
    now: Instant,
)
    requires
        transfer.source_data.len() > 0,
    ensures
        transfer.on_event(
            atoms,
            IncomingEvent::<W, E>::Written { result: Err(error), now },
        ) == (transfer, Ok::<IncomingStep, E>(IncomingStep::Return(IncomingAction::Done))),
{
}

/// When the owner sends in chunks, the next chunk is asked for only when all of the last has been
/// written, by deleting the property; and the transfer then waits on its owner, to read the new
/// property from its start, and takes no other value for the chunk until the delete is seen.
pub proof fn law_next_chunk_is_asked_for_when_written<R, W, E>(
    transfer: IncomingView<R>,
    atoms: Atoms,
    event: IncomingEvent<W, E>,
)
    requires
        transfer.can_happen(event),
    ensures
        ({
            let (asking, step) = transfer.on_event(atoms, event);
            step matches Ok(IncomingStep::RequestChunk(request)) ==> {
                let (asked, returned) = asking.on_event(
                    atoms,
                    IncomingEvent::<W, E>::ChunkRequested(Ok(())),
                );
                &&& asking.incr && asking.source_data.len() == 0 && !asking.more
                &&& request.window == transfer.window && request.property == atoms._WL_SELECTION
                &&& returned == Ok::<IncomingStep, E>(
                    IncomingStep::Return(IncomingAction::WaitForProperty),
                )
                &&& asked.awaits_owner() && asked.delete_sent && !asked.awaiting_chunk
                &&& asked.offset == 0 && !asked.more && asked.source_data.len() == 0
            }
        }),
{
}

/// Where the slice that a server sends for a request at `offset` ends, in a property of `len`
/// bytes: one slice on, or at the end of the property.
pub open spec fn slice_end(len: nat, offset: u32) -> int {
    if 4 * offset + 4 * PROPERTY_SLICE < len {
        4 * offset + 4 * PROPERTY_SLICE
    } else {
        len as int
    }
}

/// A transfer whose reader has been given the buffer.
pub open spec fn drained<R>(transfer: IncomingView<R>) -> IncomingView<R> {
    IncomingView { source_data: Seq::empty(), ..transfer }
}

/// The transfer and what its reader has been given, after the first slices of `property` have been
/// read, one at each of `moments`, and written. A reply is as the X protocol defines it: the bytes
/// at the offset asked for, as many as were asked for or as there are, and the number of those
/// after them.
pub open spec fn after_slices<R>(
    transfer: IncomingView<R>,
    property: Seq<u8>,
    moments: Seq<Instant>,
) -> (IncomingView<R>, Seq<u8>)
    decreases moments.len(),
{
    if moments.len() == 0 {
        (transfer, Seq::empty())
    } else {
        let (before, given) = after_slices(transfer, property, moments.drop_last());
        let end = slice_end(property.len(), before.offset);
        let read = before.with_slice(
            property.subrange(4 * before.offset, end),
            (property.len() - end) as u32,
            moments.last(),
        );
        (drained(read), given + read.source_data)
    }
}

/// A property is read whole: slice after slice, whenever each is read, the reader is given the
/// property from its start, and the transfer says that there is more exactly as long as there is.
/// After as many slices as the property fills, none twice and none left out, the reader has all of
/// it.
///
/// The property is one that a reply can speak of: what lies after its first slice is counted in 32
/// bits.
pub proof fn law_property_is_read_whole<R>(
    transfer: IncomingView<R>,
    property: Seq<u8>,
    moments: Seq<Instant>,
)
    requires
        transfer.offset == 0,
        transfer.source_data.len() == 0,
        property.len() <= u32::MAX + INCR_CHUNK_SIZE,
        moments.len() > 0,
        (moments.len() - 1) * INCR_CHUNK_SIZE < property.len() || moments.len() == 1,
    ensures
        ({
            let n = moments.len();
            let (after, given) = after_slices(transfer, property, moments);
            &&& after.more <==> n * INCR_CHUNK_SIZE < property.len()
            &&& after.more ==> given == property.take(n * INCR_CHUNK_SIZE) && 4 * after.offset == n
                * INCR_CHUNK_SIZE
            &&& !after.more ==> given == property
            &&& after.source_data.len() == 0
            &&& after.last_activity == moments.last()
        }),
    decreases moments.len(),
{
    let n = moments.len();
    let earlier = moments.drop_last();
    let (before, given) = after_slices(transfer, property, earlier);
    assert(n * INCR_CHUNK_SIZE == (n - 1) * INCR_CHUNK_SIZE + INCR_CHUNK_SIZE) by (nonlinear_arith);
    if n > 1 {
        assert((n - 1) * INCR_CHUNK_SIZE == (n - 2) * INCR_CHUNK_SIZE + INCR_CHUNK_SIZE)
            by (nonlinear_arith);
        law_property_is_read_whole(transfer, property, earlier);
    } else {
        assert(given =~= property.take(0));
        assert((n - 1) * INCR_CHUNK_SIZE == 0) by (nonlinear_arith)
            requires
                n == 1,
        ;
    }
    assert(4 * before.offset == (n - 1) * INCR_CHUNK_SIZE);
    let end = slice_end(property.len(), before.offset);
    let value = property.subrange(4 * before.offset, end);
    assert(before.source_data + value =~= value);
    assert(property.take(4 * before.offset) + value =~= property.take(end));
    assert(property.take(property.len() as int) =~= property);
}

/// Whether `events` are those of a transfer that reads `property`: the first one brings its first
/// slice, and each further one that brings a slice comes while there is more and brings the slice
/// at the offset, as the X protocol defines a reply. Pipes may take what they like in between.
pub open spec fn reads_property<R, W, E>(
    transfer: IncomingView<R>,
    atoms: Atoms,
    events: Seq<IncomingEvent<W, E>>,
    property: Seq<u8>,
) -> bool
    decreases events.len(),
{
    events.len() > 0 ==> {
        let earlier = events.drop_last();
        let before = after_events(transfer, atoms, earlier);
        &&& reads_property(transfer, atoms, earlier, property)
        &&& match events.last() {
            IncomingEvent::SliceRead { reply: Ok(reply), .. } => {
                let end = slice_end(property.len(), before.offset);
                &&& earlier.len() == 0 || before.more
                &&& reply.value@ == property.subrange(4 * before.offset, end)
                &&& reply.bytes_after == property.len() - end
            },
            IncomingEvent::ChunkRequested(_) => false,
            _ => earlier.len() > 0,
        }
    }
}

/// The reader is given the property, all of it and nothing else: at any time what the pipe has
/// taken is the front of the property, and once the buffer is empty and the property has no more --
/// which is when the callback returns `Done` or asks for the next chunk -- it is all of it.
pub proof fn law_reader_is_given_the_property<R, W, E>(
    transfer: IncomingView<R>,
    atoms: Atoms,
    events: Seq<IncomingEvent<W, E>>,
    property: Seq<u8>,
)
    requires
        transfer.offset == 0,
        transfer.source_data.len() == 0,
        events.len() > 0,
        can_all_happen(transfer, atoms, events),
        reads_property(transfer, atoms, events, property),
    ensures
        ({
            let after = after_events(transfer, atoms, events);
            let given = all_bytes_out(transfer, atoms, events);
            &&& given.len() <= property.len()
            &&& given == property.take(given.len() as int)
            &&& after.source_data.len() == 0 && !after.more ==> given == property
        }),
{
    law_selection_goes_through_unchanged(transfer, atoms, events);
    lemma_slices_are_the_front(transfer, atoms, events, property);
    let given = all_bytes_out(transfer, atoms, events);
    let after = after_events(transfer, atoms, events);
    assert(transfer.source_data + all_bytes_in(events) =~= all_bytes_in(events));
    assert(given =~= (given + after.source_data).take(given.len() as int));
    assert(property.take(given.len() as int) =~= all_bytes_in(events).take(given.len() as int));
    if after.source_data.len() == 0 {
        assert(given + after.source_data =~= given);
    }
}

proof fn lemma_slices_are_the_front<R, W, E>(
    transfer: IncomingView<R>,
    atoms: Atoms,
    events: Seq<IncomingEvent<W, E>>,
    property: Seq<u8>,
)
    requires
        transfer.offset == 0,
        events.len() > 0,
        reads_property(transfer, atoms, events, property),
    ensures
        ({
            let after = after_events(transfer, atoms, events);
            let read = all_bytes_in(events);
            &&& property.len() <= u32::MAX + INCR_CHUNK_SIZE
            &&& after.more ==> 4 * after.offset < property.len() && read == property.take(
                4 * after.offset,
            )
            &&& !after.more ==> read == property
        }),
    decreases events.len(),
{
    let earlier = events.drop_last();
    let before = after_events(transfer, atoms, earlier);
    if earlier.len() > 0 {
        lemma_slices_are_the_front(transfer, atoms, earlier, property);
    } else {
        assert(all_bytes_in(earlier) =~= property.take(4 * before.offset));
    }
    match events.last() {
        IncomingEvent::SliceRead { reply: Ok(reply), .. } => {
            let end = slice_end(property.len(), before.offset);
            assert(property.take(4 * before.offset) + property.subrange(4 * before.offset, end)
                =~= property.take(end));
            assert(property.take(property.len() as int) =~= property);
        },
        _ => {
            assert(all_bytes_in(events) =~= all_bytes_in(earlier));
        },
    }
}

} // verus!
