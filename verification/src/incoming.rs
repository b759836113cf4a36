//! Transfers of an X selection into the pipe of a Wayland reader.

use calloop::RegistrationToken;
use crate::clock::Duration;
use crate::clock::Instant;
use crate::limits::OWNER_CHANGE_GRACE;
use crate::limits::PROPERTY_SLICE;
use crate::x11::atom_any;
use crate::x11::Atom;
use crate::x11::Atoms;
use crate::x11::DeleteProperty;
use crate::x11::GetProperty;
use crate::x11::GetPropertyReply;
use crate::x11::X11Window;
use vstd::prelude::*;

verus! {

/// A conversion of an X selection that its owner has answered, on its way to a Wayland reader.
pub struct IncomingTransfer<R> {
    /// The source that writes the pipe, while the event loop holds one.
    pub token: Option<RegistrationToken>,
    pub window: X11Window,
    /// The reader's end, and whatever else its holder keeps for as long as the transfer lasts.
    pub reader: R,
    /// The owner sends the selection in chunks.
    pub incr: bool,
    /// Read from the property, not yet written to the reader: at most one slice.
    pub source_data: Vec<u8>,
    /// Where the next slice of the current property starts, in 32-bit units.
    pub offset: u32,
    /// The current property has more past `offset`.
    pub more: bool,
    /// INCR: the delete asking for the next chunk has been sent, and its `PropertyNotify`
    /// not yet seen.
    pub delete_sent: bool,
    /// INCR: the delete has taken effect, so the owner's next write is the next chunk. Any
    /// new value seen while this is unset -- an owner appending without waiting, or a
    /// notify queued before the delete -- is ignored, never read.
    pub awaiting_chunk: bool,
    /// When the transfer last moved: a slice read, bytes written, a chunk arriving.
    pub last_activity: Instant,
    /// The selection's ownership count when the transfer was answered: a transfer whose owner
    /// has since changed or gone can stall for good.
    pub generation: u64,
}

/// What an [`IncomingTransfer`] holds.
pub struct IncomingView<R> {
    pub token: Option<RegistrationToken>,
    pub window: X11Window,
    pub reader: R,
    pub incr: bool,
    pub source_data: Seq<u8>,
    pub offset: u32,
    pub more: bool,
    pub delete_sent: bool,
    pub awaiting_chunk: bool,
    pub last_activity: Instant,
    pub generation: u64,
}

impl<R> View for IncomingTransfer<R> {
    type V = IncomingView<R>;

    open spec fn view(&self) -> IncomingView<R> {
        IncomingView {
            token: self.token,
            window: self.window,
            reader: self.reader,
            incr: self.incr,
            source_data: self.source_data@,
            offset: self.offset,
            more: self.more,
            delete_sent: self.delete_sent,
            awaiting_chunk: self.awaiting_chunk,
            last_activity: self.last_activity,
            generation: self.generation,
        }
    }
}

/// How a call of [`write_selection_callback`] leaves the source of the transfer.
#[derive(Clone, Copy, Debug, PartialEq, Eq, Structural)]
pub enum IncomingAction {
    Done,
    WaitForProperty,
    WaitForWritable,
}

/// What the caller of [`write_selection_callback`] has to do next.
#[derive(Clone, Copy, Debug, PartialEq, Eq, Structural)]
pub enum IncomingStep {
    /// Write the buffer into the pipe, once; then report [`IncomingEvent::Written`].
    Write,
    /// Ask for the property and wait for the reply; then report [`IncomingEvent::SliceRead`].
    ReadSlice(GetProperty),
    /// Delete the property and flush; then report [`IncomingEvent::ChunkRequested`].
    RequestChunk(DeleteProperty),
    /// The callback is over.
    Return(IncomingAction),
}

/// What has happened to an incoming transfer. `W` is why a pipe could not be written, `E` why a
/// request failed.
#[derive(Debug)]
pub enum IncomingEvent<W, E> {
    /// The pipe has become writable.
    Writable,
    /// The pipe took that many bytes off the front of the buffer at that moment, or failed.
    Written { result: Result<usize, W>, now: Instant },
    /// A slice of the property was asked for.
    SliceRead { reply: Result<GetPropertyReply, E>, now: Instant },
    /// The delete of the property was sent and flushed, or failed.
    ChunkRequested(Result<(), E>),
}

impl<R> IncomingView<R> {
    /// The request for the next slice of the property, whatever its type. The property stays.
    pub open spec fn slice_request(self, atoms: Atoms) -> GetProperty {
        GetProperty {
            delete: false,
            window: self.window,
            property: atoms._WL_SELECTION,
            type_: 0,
            long_offset: self.offset,
            long_length: PROPERTY_SLICE,
        }
    }

    /// The request that deletes the property, which asks an INCR owner for its next chunk.
    pub open spec fn chunk_request(self, atoms: Atoms) -> DeleteProperty {
        DeleteProperty { window: self.window, property: atoms._WL_SELECTION }
    }

    /// The transfer with a slice read at `now`: `value`, with `bytes_after` more to come. The
    /// offset moves on by the whole units read, and stops at the largest there is.
    pub open spec fn with_slice(self, value: Seq<u8>, bytes_after: u32, now: Instant) -> IncomingView<
        R,
    > {
        let offset: u32 = if self.offset + value.len() / 4 <= u32::MAX {
            (self.offset + value.len() / 4) as u32
        } else {
            u32::MAX
        };
        IncomingView {
            offset,
            more: bytes_after > 0 && offset < u32::MAX,
            source_data: self.source_data + value,
            last_activity: now,
            ..self
        }
    }

    /// The transfer once the pipe has taken `len` bytes at `now`. Nothing moved if it took none.
    pub open spec fn without_front(self, len: int, now: Instant) -> IncomingView<R> {
        if len > 0 {
            IncomingView {
                source_data: self.source_data.skip(len),
                last_activity: now,
                ..self
            }
        } else {
            self
        }
    }

    /// The transfer once the delete that asks for the next chunk has been sent.
    pub open spec fn chunk_requested(self) -> IncomingView<R> {
        IncomingView { offset: 0, more: false, delete_sent: true, awaiting_chunk: false, ..self }
    }

    /// Whether the transfer is waiting on the owner for its next chunk.
    pub open spec fn awaits_owner(self) -> bool {
        self.delete_sent || self.awaiting_chunk
    }

    /// The buffer is empty. The next slice is read, or the next chunk asked for; a selection that
    /// came in one property is complete.
    pub open spec fn on_drained(self, atoms: Atoms) -> IncomingStep {
        if self.more {
            IncomingStep::ReadSlice(self.slice_request(atoms))
        } else if self.incr {
            IncomingStep::RequestChunk(self.chunk_request(atoms))
        } else {
            IncomingStep::Return(IncomingAction::Done)
        }
    }

    /// The pipe has been written. With the buffer empty the transfer goes on; with some of it left
    /// it waits for the pipe; a reader that has gone away ends it.
    pub open spec fn on_written<W>(self, atoms: Atoms, result: Result<usize, W>, now: Instant) -> (
        IncomingView<R>,
        IncomingStep,
    ) {
        if self.source_data.len() == 0 {
            (self, self.on_drained(atoms))
        } else {
            match result {
                Ok(len) => {
                    let left = self.without_front(len as int, now);
                    if left.source_data.len() == 0 {
                        (left, left.on_drained(atoms))
                    } else {
                        (left, IncomingStep::Return(IncomingAction::WaitForWritable))
                    }
                },
                Err(_) => (self, IncomingStep::Return(IncomingAction::Done)),
            }
        }
    }

    /// What an event makes of the transfer, and what its caller has to do next. A request that
    /// failed changes nothing and ends the callback with its error.
    pub open spec fn on_event<W, E>(self, atoms: Atoms, event: IncomingEvent<W, E>) -> (
        IncomingView<R>,
        Result<IncomingStep, E>,
    ) {
        match event {
            IncomingEvent::Writable => (
                self,
                Ok(
                    if self.source_data.len() == 0 {
                        self.on_drained(atoms)
                    } else {
                        IncomingStep::Write
                    },
                ),
            ),
            IncomingEvent::Written { result, now } => (
                self.on_written(atoms, result, now).0,
                Ok(self.on_written(atoms, result, now).1),
            ),
            IncomingEvent::SliceRead { reply: Ok(reply), now } => (
                self.with_slice(reply.value@, reply.bytes_after, now),
                Ok(IncomingStep::Return(IncomingAction::WaitForWritable)),
            ),
            IncomingEvent::SliceRead { reply: Err(error), now } => (self, Err(error)),
            IncomingEvent::ChunkRequested(Ok(_)) => (
                self.chunk_requested(),
                Ok(IncomingStep::Return(IncomingAction::WaitForProperty)),
            ),
            IncomingEvent::ChunkRequested(Err(error)) => (self, Err(error)),
        }
    }

    /// A pipe takes no more of the buffer than there is.
    pub open spec fn can_happen<W, E>(self, event: IncomingEvent<W, E>) -> bool {
        event matches IncomingEvent::Written { result: Ok(len), .. } ==> self.source_data.len() == 0
            || len <= self.source_data.len()
    }
}

impl<R> IncomingTransfer<R> {
    /// A transfer to `reader` through `window`, not started.
    pub fn new(
        token: RegistrationToken,
        window: X11Window,
        reader: R,
        generation: u64,
        now: Instant,
    ) -> (transfer: Self)
        ensures
            transfer@ == (IncomingView {
                token: Some(token),
                window,
                reader,
                incr: false,
                source_data: Seq::empty(),
                offset: 0,
                more: false,
                delete_sent: false,
                awaiting_chunk: false,
                last_activity: now,
                generation,
            }),
    {
        IncomingTransfer {
            token: Some(token),
            window,
            reader,
            incr: false,
            source_data: Vec::new(),
            offset: 0,
            more: false,
            delete_sent: false,
            awaiting_chunk: false,
            last_activity: now,
            generation,
        }
    }

    /// The request for the next slice of the property, to be answered by
    /// [`IncomingTransfer::read_slice`].
    pub fn next_slice(&self, atoms: &Atoms) -> (request: GetProperty)
        ensures
            request == self@.slice_request(*atoms),
            request.window == self.window,
            request.property == atoms._WL_SELECTION,
            request.type_ == 0,
            request.long_offset == self.offset,
            request.long_length == PROPERTY_SLICE,
            !request.delete,
    {
        GetProperty {
            delete: false,
            window: self.window,
            property: atoms._WL_SELECTION,
            type_: atom_any(),
            long_offset: self.offset,
            long_length: PROPERTY_SLICE,
        }
    }

    /// Takes the next slice of the property into the buffer, returning the property's type. A
    /// request that failed leaves the transfer as it was.
    pub fn read_slice<E>(&mut self, reply: Result<GetPropertyReply, E>, now: Instant) -> (result:
        Result<Atom, E>)
        ensures
            match reply {
                Ok(reply) => final(self)@ == old(self)@.with_slice(
                    reply.value@,
                    reply.bytes_after,
                    now,
                ) && result == Ok::<Atom, E>(reply.type_),
                Err(error) => final(self)@ == old(self)@ && result == Err::<Atom, E>(error),
            },
    {
        match reply {
            Ok(reply) => {
                // A full slice is a whole number of 32-bit units; only the last may not be, and
                // nothing is read after it.
                let whole: usize = reply.value.len() / 4;
                let units: u32 = if whole <= u32::MAX as usize {
                    whole as u32
                } else {
                    u32::MAX
                };
                self.offset = self.offset.saturating_add(units);
                self.more = reply.bytes_after > 0 && self.offset < u32::MAX;
                let mut value = reply.value;
                self.source_data.append(&mut value);
                self.last_activity = now;
                Ok(reply.type_)
            },
            Err(error) => Err(error),
        }
    }

    /// Takes off the buffer what was written into the pipe, and says whether the buffer is empty.
    /// `written` is what writing the buffer gave; with nothing buffered nothing is written, and it
    /// is not looked at.
    pub fn write_selection<W>(&mut self, written: Result<usize, W>, now: Instant) -> (result:
        Result<bool, W>)
        requires
            old(self)@.source_data.len() == 0 || (written matches Ok(len) ==> len
                <= old(self)@.source_data.len()),
        ensures
            old(self)@.source_data.len() == 0 ==> final(self)@ == old(self)@ && result == Ok::<
                bool,
                W,
            >(true),
            old(self)@.source_data.len() > 0 ==> match written {
                Ok(len) => final(self)@ == old(self)@.without_front(len as int, now) && result
                    == Ok::<bool, W>(len == old(self)@.source_data.len()),
                Err(error) => final(self)@ == old(self)@ && result == Err::<bool, W>(error),
            },
    {
        if self.source_data.is_empty() {
            return Ok(true);
        }
        match written {
            Ok(len) => {
                if len > 0 {
                    let rest = self.source_data.split_off(len);
                    self.source_data = rest;
                    self.last_activity = now;
                }
                Ok(self.source_data.is_empty())
            },
            Err(error) => Err(error),
        }
    }

    /// Whether the reader has closed its end, by what its pipe reported when it was polled. A
    /// transfer waiting on its owner writes nothing, so without asking it would never notice.
    pub fn reader_gone<E>(&self, polled: Result<u16, E>) -> (gone: bool)
        ensures
            gone == crate::poll::closed_by_reader(polled),
    {
        crate::poll::reader_gone(polled)
    }

    /// Whether the transfer is waiting on the owner for its next chunk.
    pub fn waiting_on_owner(&self) -> (waiting: bool)
        ensures
            waiting == self@.awaits_owner(),
            waiting <==> self.delete_sent || self.awaiting_chunk,
    {
        self.delete_sent || self.awaiting_chunk
    }

    /// Whether the transfer will not finish, as seen at `now` with the selection at ownership
    /// count `generation`: its reader has left; or it has not moved for `timeout`; or the
    /// selection has changed hands since it was answered, and it has been waiting on its owner for
    /// at least [`OWNER_CHANGE_GRACE`].
    pub open spec fn stale(
        self,
        now: Instant,
        timeout: Duration,
        generation: u64,
        reader_gone: bool,
    ) -> bool {
        let idle = now.since(self.last_activity);
        ||| idle >= timeout
        ||| self.generation != generation && self@.awaits_owner() && idle >= OWNER_CHANGE_GRACE
        ||| reader_gone
    }

    /// Whether the transfer will not finish, as seen at `now` with the selection at ownership
    /// count `generation`.
    pub fn is_stale(
        &self,
        now: Instant,
        timeout: Duration,
        generation: u64,
        reader_gone: bool,
    ) -> (stale: bool)
        ensures
            stale == self.stale(now, timeout, generation, reader_gone),
            stale <==> {
                let idle = now.nanos - self.last_activity.nanos;
                ||| timeout == 0 || idle >= timeout
                ||| self.generation != generation && (self.delete_sent || self.awaiting_chunk)
                    && idle >= OWNER_CHANGE_GRACE
                ||| reader_gone
            },
    {
        let idle: Duration = now.saturating_duration_since(self.last_activity);
        idle >= timeout || (self.generation != generation && self.waiting_on_owner() && idle
            >= OWNER_CHANGE_GRACE) || reader_gone
    }

    /// Ends the transfer: returns the source that the event loop is to be rid of, if it still
    /// holds one.
    pub fn destroy(self) -> (token: Option<RegistrationToken>)
        ensures
            token == self.token,
    {
        self.token
    }
}

/// The request that deletes the transfer's property, to be answered by [`request_next_chunk`].
pub fn next_chunk<R>(atoms: &Atoms, transfer: &IncomingTransfer<R>) -> (request: DeleteProperty)
    ensures
        request == transfer@.chunk_request(*atoms),
        request.window == transfer.window,
        request.property == atoms._WL_SELECTION,
{
    DeleteProperty { window: transfer.window, property: atoms._WL_SELECTION }
}

/// Notes that the transfer's property has been deleted, which asks an INCR owner for its next
/// chunk, and that the chunk is only due once that delete is seen to take effect. A delete that
/// could not be sent leaves the transfer as it was.
pub fn request_next_chunk<R, E>(transfer: &mut IncomingTransfer<R>, sent: Result<(), E>) -> (result:
    Result<(), E>)
    ensures
        match sent {
            Ok(_) => final(transfer)@ == old(transfer)@.chunk_requested() && result is Ok,
            Err(error) => final(transfer)@ == old(transfer)@ && result == Err::<(), E>(error),
        },
{
    match sent {
        Ok(()) => {
            transfer.offset = 0;
            transfer.more = false;
            transfer.delete_sent = true;
            transfer.awaiting_chunk = false;
            Ok(())
        },
        Err(error) => Err(error),
    }
}

/// Goes on with a transfer whose buffer is empty.
fn drained<R>(atoms: &Atoms, transfer: &IncomingTransfer<R>) -> (step: IncomingStep)
    ensures
        step == transfer@.on_drained(*atoms),
{
    if transfer.more {
        // The next slice of the same property, now that this one is out.
        IncomingStep::ReadSlice(transfer.next_slice(atoms))
    } else if transfer.incr {
        // This delete asks the owner for the next chunk (reads never delete), so it
        // has to reach the server now, not whenever something else flushes.
        IncomingStep::RequestChunk(next_chunk(atoms, transfer))
    } else {
        IncomingStep::Return(IncomingAction::Done)
    }
}

/// Moves an incoming transfer on when its pipe is writable.
///
/// The first call of a round reports [`IncomingEvent::Writable`]; each answer says what to do
/// next, and the call after it reports how that went, until the answer is
/// [`IncomingStep::Return`] or an error. An error of a request comes back as it was reported; a
/// pipe that cannot be written just ends the transfer.
pub fn write_selection_callback<R, W, E>(
    atoms: &Atoms,
    transfer: &mut IncomingTransfer<R>,
    event: IncomingEvent<W, E>,
) -> (step: Result<IncomingStep, E>)
    requires
        old(transfer)@.can_happen(event),
    ensures
        final(transfer)@ == old(transfer)@.on_event(*atoms, event).0,
        step == old(transfer)@.on_event(*atoms, event).1,
{
    match event {
        IncomingEvent::Writable => Ok(
            if transfer.source_data.is_empty() {
                drained(atoms, transfer)
            } else {
                IncomingStep::Write
            },
        ),
        IncomingEvent::Written { result, now } => {
            match transfer.write_selection(result, now) {
                Ok(true) => Ok(drained(atoms, transfer)),
                Ok(false) => Ok(IncomingStep::Return(IncomingAction::WaitForWritable)),
                // The reader went away: nothing more of the selection has anywhere to go. The
                // owner is left waiting for a delete that will not come, which ICCCM owners time
                // out.
                Err(_) => Ok(IncomingStep::Return(IncomingAction::Done)),
            }
        },
        IncomingEvent::SliceRead { reply, now } => {
            match transfer.read_slice(reply, now) {
                Ok(_) => Ok(IncomingStep::Return(IncomingAction::WaitForWritable)),
                Err(error) => Err(error),
            }
        },
        IncomingEvent::ChunkRequested(sent) => {
            match request_next_chunk(transfer, sent) {
                Ok(_) => Ok(IncomingStep::Return(IncomingAction::WaitForProperty)),
                Err(error) => Err(error),
            }
        },
    }
}

} // verus!
