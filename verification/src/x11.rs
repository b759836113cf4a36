//! The part of the X protocol that selections speak: atoms, events, and the requests that a
//! transfer asks its caller to send.

use vstd::prelude::*;
use x11rb::protocol::xproto::AtomEnum;
use x11rb::protocol::xproto::EventMask;
use x11rb::protocol::xproto::SELECTION_NOTIFY_EVENT;

verus! {

/// An X atom.
pub type Atom = u32;

/// An X window.
pub type X11Window = u32;

/// A server time, in milliseconds.
pub type Timestamp = u32;

/// The atoms that selections use.
#[allow(non_snake_case)]
#[derive(Clone, Copy, Debug, PartialEq, Eq, Structural)]
pub struct Atoms {
    pub CLIPBOARD: Atom,
    pub CLIPBOARD_MANAGER: Atom,
    pub PRIMARY: Atom,
    pub INCR: Atom,
    /// The property of a transfer's window that an owner converts a selection into.
    pub _WL_SELECTION: Atom,
}

/// A `SelectionRequest`: an X client asks for a selection to be put into a property of its window.
#[derive(Clone, Copy, Debug, PartialEq, Eq, Structural)]
pub struct SelectionRequestEvent {
    pub response_type: u8,
    pub sequence: u16,
    pub time: Timestamp,
    pub owner: X11Window,
    pub requestor: X11Window,
    pub selection: Atom,
    pub target: Atom,
    pub property: Atom,
}

/// A `SelectionNotify`: the answer to a `SelectionRequest`.
#[derive(Clone, Copy, Debug, PartialEq, Eq, Structural)]
pub struct SelectionNotifyEvent {
    pub response_type: u8,
    pub sequence: u16,
    pub time: Timestamp,
    pub requestor: X11Window,
    pub selection: Atom,
    pub target: Atom,
    pub property: Atom,
}

/// A `SendEvent` request, to be flushed at once.
#[derive(Clone, Copy, Debug, PartialEq, Eq, Structural)]
pub struct SendEvent {
    pub propagate: bool,
    pub destination: X11Window,
    pub event_mask: u32,
    pub event: SelectionNotifyEvent,
}

/// A `GetProperty` request. Offset and length count 32-bit units.
#[derive(Clone, Copy, Debug, PartialEq, Eq, Structural)]
pub struct GetProperty {
    pub delete: bool,
    pub window: X11Window,
    pub property: Atom,
    pub type_: Atom,
    pub long_offset: u32,
    pub long_length: u32,
}

/// What a `GetProperty` reply says of the property.
#[derive(Debug)]
pub struct GetPropertyReply {
    /// The property's type.
    pub type_: Atom,
    /// How many bytes of the property lie past `value`.
    pub bytes_after: u32,
    pub value: Vec<u8>,
}

/// A `DeleteProperty` request, to be flushed at once.
#[derive(Clone, Copy, Debug, PartialEq, Eq, Structural)]
pub struct DeleteProperty {
    pub window: X11Window,
    pub property: Atom,
}

/// A `ChangeProperty` request that replaces a property by bytes, to be flushed at once.
#[derive(Debug)]
pub struct ReplaceProperty8 {
    pub window: X11Window,
    pub property: Atom,
    pub type_: Atom,
    pub data: Vec<u8>,
}

/// What a [`ReplaceProperty8`] asks for.
pub struct ReplaceProperty8View {
    pub window: X11Window,
    pub property: Atom,
    pub type_: Atom,
    pub data: Seq<u8>,
}

impl View for ReplaceProperty8 {
    type V = ReplaceProperty8View;

    open spec fn view(&self) -> ReplaceProperty8View {
        ReplaceProperty8View {
            window: self.window,
            property: self.property,
            type_: self.type_,
            data: self.data@,
        }
    }
}

/// A `ChangeProperty` request that replaces a property by one 32-bit value, to be flushed at once.
#[derive(Clone, Copy, Debug, PartialEq, Eq, Structural)]
pub struct ReplaceProperty32 {
    pub window: X11Window,
    pub property: Atom,
    pub type_: Atom,
    pub value: u32,
}

/// `x11rb::protocol::xproto::AtomEnum::NONE` as an atom. Trusted: it is zero.
#[verifier::external_body]
fn atom_none() -> (atom: Atom)
    ensures
        atom == 0,
{
    AtomEnum::NONE.into()
}

/// `x11rb::protocol::xproto::AtomEnum::ANY` as an atom. Trusted: it is zero.
#[verifier::external_body]
pub(crate) fn atom_any() -> (atom: Atom)
    ensures
        atom == 0,
{
    AtomEnum::ANY.into()
}

/// `x11rb::protocol::xproto::SELECTION_NOTIFY_EVENT`. Trusted: the event's code is 31.
#[verifier::external_body]
fn selection_notify_code() -> (code: u8)
    ensures
        code == 31,
{
    SELECTION_NOTIFY_EVENT
}

/// `x11rb::protocol::xproto::EventMask::NO_EVENT` as bits. Trusted: no bit is set.
#[verifier::external_body]
fn no_event_mask() -> (mask: u32)
    ensures
        mask == 0,
{
    EventMask::NO_EVENT.into()
}

impl SelectionRequestEvent {
    /// How the request is answered: to the requestor, with no event mask, everything as it was
    /// asked -- except that the property is none (0) when the selection could not be converted.
    /// 31 is the code of `SelectionNotify`.
    pub open spec fn answer(self, success: bool) -> SendEvent {
        SendEvent {
            propagate: false,
            destination: self.requestor,
            event_mask: 0,
            event: SelectionNotifyEvent {
                response_type: 31,
                sequence: 0,
                time: self.time,
                requestor: self.requestor,
                selection: self.selection,
                target: self.target,
                property: if success {
                    self.property
                } else {
                    0
                },
            },
        }
    }
}

/// The answer to a selection request: the property named in the request if the selection was put
/// there, no property if it was not.
pub fn send_selection_notify_resp(req: &SelectionRequestEvent, success: bool) -> (sent: SendEvent)
    ensures
        sent == req.answer(success),
        !sent.propagate,
        sent.destination == req.requestor,
        sent.event_mask == 0,
        sent.event.response_type == 31,
        sent.event.sequence == 0,
        sent.event.time == req.time,
        sent.event.requestor == req.requestor,
        sent.event.selection == req.selection,
        sent.event.target == req.target,
        success ==> sent.event.property == req.property,
        !success ==> sent.event.property == 0,
{
    SendEvent {
        propagate: false,
        destination: req.requestor,
        event_mask: no_event_mask(),
        event: SelectionNotifyEvent {
            response_type: selection_notify_code(),
            sequence: 0,
            time: req.time,
            requestor: req.requestor,
            selection: req.selection,
            target: req.target,
            property: if success {
                req.property
            } else {
                atom_none()
            },
        },
    }
}

} // verus!
