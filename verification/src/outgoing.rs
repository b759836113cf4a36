//! Transfers out of a Wayland selection into a property of an X requestor.

use calloop::RegistrationToken;
use crate::clock::Duration;
use crate::clock::Instant;
use crate::limits::INCR_CHUNK_SIZE;
use crate::x11::send_selection_notify_resp;
use crate::x11::Atoms;
use crate::x11::ReplaceProperty32;
use crate::x11::ReplaceProperty8;
use crate::x11::ReplaceProperty8View;
use crate::x11::SelectionRequestEvent;
use crate::x11::SendEvent;
use vstd::prelude::*;

verus! {

/// A selection request of an X client, being answered with what a Wayland client writes into a
/// pipe.
///
/// `C` is what its holder keeps for as long as the transfer lasts, such as the connection that it
/// is answered on.
pub struct OutgoingTransfer<C> {
    pub conn: C,
    /// The source that reads the pipe, while the event loop holds one.
    pub token: Option<RegistrationToken>,
    /// The requestor has been told to expect the selection in chunks.
    pub incr: bool,
    /// Read from the pipe, not yet put into the property.
    pub source_data: Vec<u8>,
    pub request: SelectionRequestEvent,
    /// The property holds something the requestor has not taken (deleted) yet.
    pub property_set: bool,
    /// The next chunk is to be sent when the requestor deletes the property.
    pub flush_property_on_delete: bool,
    /// The final 0-byte data chunk has been sent, denoting the completion of this transfer
    pub sent_finished: bool,
    /// When the transfer last moved: bytes read from the source, or a chunk taken.
    pub last_activity: Instant,
}

/// What an [`OutgoingTransfer`] holds.
pub struct OutgoingView<C> {
    pub conn: C,
    pub token: Option<RegistrationToken>,
    pub incr: bool,
    pub source_data: Seq<u8>,
    pub request: SelectionRequestEvent,
    pub property_set: bool,
    pub flush_property_on_delete: bool,
    pub sent_finished: bool,
    pub last_activity: Instant,
}

impl<C> View for OutgoingTransfer<C> {
    type V = OutgoingView<C>;

    open spec fn view(&self) -> OutgoingView<C> {
        OutgoingView {
            conn: self.conn,
            token: self.token,
            incr: self.incr,
            source_data: self.source_data@,
            request: self.request,
            property_set: self.property_set,
            flush_property_on_delete: self.flush_property_on_delete,
            sent_finished: self.sent_finished,
            last_activity: self.last_activity,
        }
    }
}

/// How a call of [`read_selection_callback`] leaves the source of the transfer.
#[derive(Clone, Copy, Debug, PartialEq, Eq, Structural)]
pub enum OutgoingAction {
    Done,
    DoneReading,
    WaitForReadable,
    /// A chunk is buffered and the requestor has not yet taken the one before it: stop
    /// reading until it deletes the property (see `read_selection_callback`).
    WaitForDelete,
}

/// A request to the X server that an outgoing transfer asks its caller to send and flush.
#[derive(Debug)]
pub enum OutgoingRequest {
    /// Announces an INCR transfer.
    Announce(ReplaceProperty32),
    /// Puts a chunk of the selection into the property.
    Chunk(ReplaceProperty8),
    /// Answers the selection request.
    Notify(SendEvent),
}

/// What an [`OutgoingRequest`] asks for.
pub enum OutgoingRequestView {
    Announce(ReplaceProperty32),
    Chunk(ReplaceProperty8View),
    Notify(SendEvent),
}

impl View for OutgoingRequest {
    type V = OutgoingRequestView;

    open spec fn view(&self) -> OutgoingRequestView {
        match *self {
            OutgoingRequest::Announce(change) => OutgoingRequestView::Announce(change),
            OutgoingRequest::Chunk(change) => OutgoingRequestView::Chunk(change@),
            OutgoingRequest::Notify(sent) => OutgoingRequestView::Notify(sent),
        }
    }
}

/// Which request is on its way, and so where the callback goes on once it has been sent. `ended`
/// says that the source had reached its end, `last` that the chunk is the empty one.
#[derive(Clone, Copy, Debug, PartialEq, Eq, Structural)]
pub enum OutgoingStage {
    /// The source failed: the requestor is told that the selection was not converted.
    Refusing,
    /// The property is set to announce an INCR transfer.
    AnnouncingIncr { ended: bool },
    /// The requestor is told of the announcement.
    NotifyingIncr { ended: bool },
    /// A full chunk goes out.
    SendingChunk { ended: bool },
    /// The source has ended: what is left of an INCR transfer goes out.
    SendingRest { last: bool },
    /// The source has ended within one chunk: all of it goes out.
    SendingWhole { last: bool },
    /// The requestor is told that the property holds the selection.
    NotifyingWhole,
}

/// What the caller of [`read_selection_callback`] has to do next.
#[derive(Debug)]
pub enum OutgoingStep {
    /// Read the pipe once, into a buffer of `at_most` bytes; then report
    /// [`OutgoingEvent::Read`] or [`OutgoingEvent::ReadFailed`].
    Read { at_most: usize },
    /// Send the request and flush; then report [`OutgoingEvent::Sent`] with the stage, or
    /// [`OutgoingEvent::SendFailed`].
    Send { request: OutgoingRequest, stage: OutgoingStage },
    /// The callback is over.
    Return(OutgoingAction),
}

/// What an [`OutgoingStep`] asks for.
pub enum OutgoingStepView {
    Read { at_most: usize },
    Send { request: OutgoingRequestView, stage: OutgoingStage },
    Return(OutgoingAction),
}

impl View for OutgoingStep {
    type V = OutgoingStepView;

    open spec fn view(&self) -> OutgoingStepView {
        match *self {
            OutgoingStep::Read { at_most } => OutgoingStepView::Read { at_most },
            OutgoingStep::Send { request, stage } => OutgoingStepView::Send {
                request: request@,
                stage,
            },
            OutgoingStep::Return(action) => OutgoingStepView::Return(action),
        }
    }
}

/// What has happened to an outgoing transfer.
#[derive(Debug)]
pub enum OutgoingEvent<E> {
    /// The pipe has become readable.
    Readable,
    /// The pipe was read and gave these bytes at that moment; none at the end of the source.
    Read { bytes: Vec<u8>, now: Instant },
    /// The pipe could not be read.
    ReadFailed,
    /// The request of this stage was sent and flushed.
    Sent(OutgoingStage),
    /// A request could not be sent.
    SendFailed(E),
}

impl<C> OutgoingView<C> {
    /// A full chunk waits behind one that the requestor still holds.
    pub open spec fn held_up(self) -> bool {
        self.incr && self.property_set && self.source_data.len() >= INCR_CHUNK_SIZE
    }

    /// How many bytes the next flush takes: all that is buffered, but one chunk at most.
    pub open spec fn flush_len(self) -> int {
        if self.source_data.len() < INCR_CHUNK_SIZE {
            self.source_data.len() as int
        } else {
            INCR_CHUNK_SIZE as int
        }
    }

    /// The property change that carries the front of the buffer to the requestor.
    pub open spec fn chunk(self) -> ReplaceProperty8View {
        ReplaceProperty8View {
            window: self.request.requestor,
            property: self.request.property,
            type_: self.request.target,
            data: self.source_data.take(self.flush_len()),
        }
    }

    /// The transfer once the front of its buffer has been taken out to be sent.
    pub open spec fn chunk_taken(self) -> OutgoingView<C> {
        OutgoingView { source_data: self.source_data.skip(self.flush_len()), ..self }
    }

    /// The transfer once the chunk it gave out stands in the property. The empty chunk is the last
    /// one: with it the transfer is finished.
    pub open spec fn chunk_set(self, last: bool) -> OutgoingView<C> {
        OutgoingView {
            property_set: true,
            sent_finished: self.sent_finished || last,
            ..self
        }
    }

    /// The transfer once its next chunk has been taken out and sent.
    pub open spec fn flushed(self) -> OutgoingView<C> {
        self.chunk_taken().chunk_set(self.chunk().data.len() == 0)
    }

    /// The next delete of the property sends the next chunk.
    pub open spec fn flush_due(self) -> OutgoingView<C> {
        OutgoingView { flush_property_on_delete: true, ..self }
    }

    /// The transfer with `bytes` read from the source at `now`.
    pub open spec fn with_bytes(self, bytes: Seq<u8>, now: Instant) -> OutgoingView<C> {
        OutgoingView { source_data: self.source_data + bytes, last_activity: now, ..self }
    }

    /// The property change that announces an INCR transfer: its type is the atom `INCR`, its value
    /// a lower bound on the size of the selection.
    pub open spec fn announcement(self, atoms: Atoms) -> ReplaceProperty32 {
        ReplaceProperty32 {
            window: self.request.requestor,
            property: self.request.property,
            type_: atoms.INCR,
            value: INCR_CHUNK_SIZE as u32,
        }
    }

    /// A chunk goes out, with `stage` to follow.
    pub open spec fn sends_chunk(self, stage: OutgoingStage) -> (OutgoingView<C>, OutgoingStepView) {
        (
            self.chunk_taken(),
            OutgoingStepView::Send { request: OutgoingRequestView::Chunk(self.chunk()), stage },
        )
    }

    /// The answer to the selection request goes out, with `stage` to follow.
    pub open spec fn sends_answer(self, success: bool, stage: OutgoingStage) -> (
        OutgoingView<C>,
        OutgoingStepView,
    ) {
        (
            self,
            OutgoingStepView::Send {
                request: OutgoingRequestView::Notify(self.request.answer(success)),
                stage,
            },
        )
    }

    /// The callback is over.
    pub open spec fn finishes(self, action: OutgoingAction) -> (OutgoingView<C>, OutgoingStepView) {
        (self, OutgoingStepView::Return(action))
    }

    /// The pipe has become readable. It is read, unless a full chunk is held up: then only the
    /// delete of the property moves the transfer on.
    pub open spec fn on_readable(self) -> (OutgoingView<C>, OutgoingStepView) {
        if self.held_up() {
            self.flush_due().finishes(OutgoingAction::WaitForDelete)
        } else {
            (self, OutgoingStepView::Read { at_most: INCR_CHUNK_SIZE })
        }
    }

    /// A full chunk has been dealt with, or there is none. The transfer waits for more of the
    /// source, or, at its end, sees to what is left.
    pub open spec fn on_settled(self, ended: bool) -> (OutgoingView<C>, OutgoingStepView) {
        if !ended {
            self.finishes(OutgoingAction::WaitForReadable)
        } else if !self.incr {
            self.sends_chunk(OutgoingStage::SendingWhole { last: self.source_data.len() == 0 })
        } else if !self.property_set {
            self.sends_chunk(OutgoingStage::SendingRest { last: self.source_data.len() == 0 })
        } else {
            self.flush_due().finishes(OutgoingAction::DoneReading)
        }
    }

    /// The pipe has given `bytes`. With a full chunk buffered the transfer becomes incremental, or
    /// waits for the property to be deleted, or sends the chunk.
    pub open spec fn on_read(self, atoms: Atoms, bytes: Seq<u8>, now: Instant) -> (
        OutgoingView<C>,
        OutgoingStepView,
    ) {
        let grown = self.with_bytes(bytes, now);
        let ended = bytes.len() == 0;
        if grown.source_data.len() < INCR_CHUNK_SIZE {
            grown.on_settled(ended)
        } else if !self.incr {
            (
                grown,
                OutgoingStepView::Send {
                    request: OutgoingRequestView::Announce(self.announcement(atoms)),
                    stage: OutgoingStage::AnnouncingIncr { ended },
                },
            )
        } else if self.property_set {
            grown.flush_due().on_settled(ended)
        } else {
            grown.sends_chunk(OutgoingStage::SendingChunk { ended })
        }
    }

    /// The request of `stage` has been sent.
    pub open spec fn on_sent(self, stage: OutgoingStage) -> (OutgoingView<C>, OutgoingStepView) {
        match stage {
            OutgoingStage::Refusing => self.finishes(OutgoingAction::Done),
            OutgoingStage::AnnouncingIncr { ended } => OutgoingView {
                incr: true,
                property_set: true,
                flush_property_on_delete: true,
                ..self
            }.sends_answer(true, OutgoingStage::NotifyingIncr { ended }),
            OutgoingStage::NotifyingIncr { ended } => self.on_settled(ended),
            OutgoingStage::SendingChunk { ended } => self.chunk_set(false).on_settled(ended),
            OutgoingStage::SendingRest { last } => self.chunk_set(last).flush_due().finishes(
                OutgoingAction::DoneReading,
            ),
            OutgoingStage::SendingWhole { last } => self.chunk_set(last).sends_answer(
                true,
                OutgoingStage::NotifyingWhole,
            ),
            OutgoingStage::NotifyingWhole => self.finishes(OutgoingAction::Done),
        }
    }

    /// What an event makes of the transfer, and what its caller has to do next. A request that
    /// could not be sent changes nothing and ends the callback with its error.
    pub open spec fn on_event<E>(self, atoms: Atoms, event: OutgoingEvent<E>) -> (
        OutgoingView<C>,
        Result<OutgoingStepView, E>,
    ) {
        match event {
            OutgoingEvent::Readable => (self.on_readable().0, Ok(self.on_readable().1)),
            OutgoingEvent::Read { bytes, now } => (
                self.on_read(atoms, bytes@, now).0,
                Ok(self.on_read(atoms, bytes@, now).1),
            ),
            OutgoingEvent::ReadFailed => (
                self,
                Ok(self.sends_answer(false, OutgoingStage::Refusing).1),
            ),
            OutgoingEvent::Sent(stage) => (self.on_sent(stage).0, Ok(self.on_sent(stage).1)),
            OutgoingEvent::SendFailed(error) => (self, Err(error)),
        }
    }
}

impl<C> OutgoingTransfer<C> {
    /// Takes the next chunk out of the buffer and returns the property change that carries it: at
    /// most [`INCR_CHUNK_SIZE`] bytes. Once the change has been sent and flushed,
    /// [`OutgoingTransfer::data_flushed`] is to be called with it. One that could not be sent is
    /// not put back.
    pub fn flush_data(&mut self) -> (change: ReplaceProperty8)
        ensures
            final(self)@ == old(self)@.chunk_taken(),
            change@ == old(self)@.chunk(),
            change.data@ + final(self).source_data@ == old(self).source_data@,
            change.data@.len() <= INCR_CHUNK_SIZE,
            change.data@.len() < INCR_CHUNK_SIZE ==> final(self).source_data@.len() == 0,
            change.window == old(self).request.requestor,
            change.property == old(self).request.property,
            change.type_ == old(self).request.target,
    {
        let buffered: usize = self.source_data.len();
        let len: usize = if buffered < INCR_CHUNK_SIZE {
            buffered
        } else {
            INCR_CHUNK_SIZE
        };
        let mut data = self.source_data.split_off(len);
        std::mem::swap(&mut data, &mut self.source_data);
        assert(data@ + self.source_data@ =~= old(self).source_data@);
        ReplaceProperty8 {
            window: self.request.requestor,
            property: self.request.property,
            type_: self.request.target,
            data,
        }
    }

    /// Notes that the property holds the chunk of the last flush, `sent`, and returns how many
    /// bytes are still buffered behind it. An empty chunk completes the transfer.
    pub fn data_flushed(&mut self, sent: &ReplaceProperty8) -> (remaining: usize)
        ensures
            final(self)@ == old(self)@.chunk_set(sent.data@.len() == 0),
            remaining == old(self)@.source_data.len(),
            final(self).property_set,
            final(self).sent_finished <==> old(self).sent_finished || sent.data@.len() == 0,
            final(self).source_data@ == old(self).source_data@,
    {
        self.note_chunk_set(sent.data.is_empty());
        self.source_data.len()
    }

    /// Notes that the property holds a chunk.
    fn note_chunk_set(&mut self, last: bool)
        ensures
            final(self)@ == old(self)@.chunk_set(last),
    {
        self.property_set = true;
        if last {
            self.sent_finished = true;
        }
    }

    /// Whether the transfer has not moved for `timeout`.
    pub open spec fn stale(self, now: Instant, timeout: Duration) -> bool {
        now.since(self.last_activity) >= timeout
    }

    /// Whether the transfer has not moved for `timeout`.
    pub fn is_stale(&self, now: Instant, timeout: Duration) -> (stale: bool)
        ensures
            stale == self.stale(now, timeout),
            stale <==> timeout == 0 || now.nanos - self.last_activity.nanos >= timeout,
    {
        now.saturating_duration_since(self.last_activity) >= timeout
    }

    /// Ends the transfer: returns the source that the event loop is to be rid of, if it still
    /// holds one.
    pub fn destroy(self) -> (token: Option<RegistrationToken>)
        ensures
            token == self.token,
    {
        self.token
    }
}

/// Sees to what is left once a full chunk has been dealt with, or there was none.
fn settle<C>(transfer: &mut OutgoingTransfer<C>, ended: bool) -> (step: OutgoingStep)
    ensures
        (final(transfer)@, step@) == old(transfer)@.on_settled(ended),
{
    if !ended {
        // nothing to be done, buffered the bytes
        OutgoingStep::Return(OutgoingAction::WaitForReadable)
    } else if !transfer.incr {
        let change = transfer.flush_data();
        let last = change.data.is_empty();
        OutgoingStep::Send {
            request: OutgoingRequest::Chunk(change),
            stage: OutgoingStage::SendingWhole { last },
        }
    } else if !transfer.property_set {
        let change = transfer.flush_data();
        let last = change.data.is_empty();
        OutgoingStep::Send {
            request: OutgoingRequest::Chunk(change),
            stage: OutgoingStage::SendingRest { last },
        }
    } else {
        transfer.flush_property_on_delete = true;
        OutgoingStep::Return(OutgoingAction::DoneReading)
    }
}

/// Takes in what the pipe gave.
fn take_bytes<C>(atoms: &Atoms, transfer: &mut OutgoingTransfer<C>, bytes: Vec<u8>, now: Instant) -> (step:
    OutgoingStep)
    ensures
        (final(transfer)@, step@) == old(transfer)@.on_read(*atoms, bytes@, now),
{
    let mut bytes = bytes;
    let ended = bytes.is_empty();
    transfer.source_data.append(&mut bytes);
    transfer.last_activity = now;
    if transfer.source_data.len() < INCR_CHUNK_SIZE {
        settle(transfer, ended)
    } else if !transfer.incr {
        // start incr transfer
        OutgoingStep::Send {
            request: OutgoingRequest::Announce(
                ReplaceProperty32 {
                    window: transfer.request.requestor,
                    property: transfer.request.property,
                    type_: atoms.INCR,
                    value: INCR_CHUNK_SIZE as u32,
                },
            ),
            stage: OutgoingStage::AnnouncingIncr { ended },
        }
    } else if transfer.property_set {
        // got more bytes, waiting for property delete
        transfer.flush_property_on_delete = true;
        settle(transfer, ended)
    } else {
        // got more bytes, property deleted
        let change = transfer.flush_data();
        OutgoingStep::Send {
            request: OutgoingRequest::Chunk(change),
            stage: OutgoingStage::SendingChunk { ended },
        }
    }
}

/// Goes on after the request of `stage` has been sent and flushed.
fn go_on<C>(transfer: &mut OutgoingTransfer<C>, stage: OutgoingStage) -> (step: OutgoingStep)
    ensures
        (final(transfer)@, step@) == old(transfer)@.on_sent(stage),
{
    match stage {
        OutgoingStage::Refusing => OutgoingStep::Return(OutgoingAction::Done),
        OutgoingStage::AnnouncingIncr { ended } => {
            transfer.incr = true;
            transfer.property_set = true;
            transfer.flush_property_on_delete = true;
            OutgoingStep::Send {
                request: OutgoingRequest::Notify(
                    send_selection_notify_resp(&transfer.request, true),
                ),
                stage: OutgoingStage::NotifyingIncr { ended },
            }
        },
        OutgoingStage::NotifyingIncr { ended } => settle(transfer, ended),
        OutgoingStage::SendingChunk { ended } => {
            // A full chunk is never the empty one.
            transfer.note_chunk_set(false);
            settle(transfer, ended)
        },
        OutgoingStage::SendingRest { last } => {
            transfer.note_chunk_set(last);
            transfer.flush_property_on_delete = true;
            OutgoingStep::Return(OutgoingAction::DoneReading)
        },
        OutgoingStage::SendingWhole { last } => {
            transfer.note_chunk_set(last);
            OutgoingStep::Send {
                request: OutgoingRequest::Notify(
                    send_selection_notify_resp(&transfer.request, true),
                ),
                stage: OutgoingStage::NotifyingWhole,
            }
        },
        OutgoingStage::NotifyingWhole => OutgoingStep::Return(OutgoingAction::Done),
    }
}

/// Moves an outgoing transfer on when its pipe is readable.
///
/// The first call of a round reports [`OutgoingEvent::Readable`]; each answer says what to do
/// next, and the call after it reports how that went, until the answer is
/// [`OutgoingStep::Return`] or an error. An error of a request comes back as it was reported, and
/// leaves the transfer as it was when the request was asked for: a chunk that could not be sent is
/// out of the buffer and is not put back, and nothing is noted of it.
pub fn read_selection_callback<C, E>(
    atoms: &Atoms,
    transfer: &mut OutgoingTransfer<C>,
    event: OutgoingEvent<E>,
) -> (step: Result<OutgoingStep, E>)
    ensures
        final(transfer)@ == old(transfer)@.on_event(*atoms, event).0,
        match step {
            Ok(step) => old(transfer)@.on_event(*atoms, event).1 == Ok::<OutgoingStepView, E>(step@),
            Err(error) => old(transfer)@.on_event(*atoms, event).1 == Err::<OutgoingStepView, E>(
                error,
            ),
        },
{
    match event {
        OutgoingEvent::Readable => {
            // Backpressure: while the requestor still holds the last chunk, a full chunk already
            // waiting is all there is any use buffering. Reading on would pull the whole Wayland
            // source into memory for a requestor that may never take it -- nothing else bounds
            // this buffer. The source is re-enabled when the requestor deletes the property.
            if transfer.incr && transfer.property_set && transfer.source_data.len()
                >= INCR_CHUNK_SIZE {
                // The delete that resumes reading must also send the waiting chunk.
                transfer.flush_property_on_delete = true;
                Ok(OutgoingStep::Return(OutgoingAction::WaitForDelete))
            } else {
                Ok(OutgoingStep::Read { at_most: INCR_CHUNK_SIZE })
            }
        },
        OutgoingEvent::Read { bytes, now } => Ok(take_bytes(atoms, transfer, bytes, now)),
        OutgoingEvent::ReadFailed => Ok(
            OutgoingStep::Send {
                request: OutgoingRequest::Notify(
                    send_selection_notify_resp(&transfer.request, false),
                ),
                stage: OutgoingStage::Refusing,
            },
        ),
        OutgoingEvent::Sent(stage) => Ok(go_on(transfer, stage)),
        OutgoingEvent::SendFailed(error) => Err(error),
    }
}

} // verus!
