//! Selection transfers of an X11 window manager that bridges X clients and Wayland clients.
//!
//! A selection (the clipboard, the primary selection) is read in both directions. An
//! [`incoming::IncomingTransfer`] carries what an X client owns into the pipe of a Wayland reader, slice by
//! slice. An [`outgoing::OutgoingTransfer`] carries what a Wayland client writes into a pipe to an X
//! requestor, in one property or in INCR chunks. [`selection::XWmSelection`] keeps the transfers of one
//! selection and drops those that will not finish.
//!
//! Nothing here talks to the X server, to a pipe or to the clock. The callbacks are state machines:
//! each call is told what happened and answers with what is to be done next.

pub mod clock;
pub mod event_loop;
pub mod incoming;
pub mod limits;
pub mod outgoing;
pub mod pending;
pub mod poll;
pub mod selection;
pub mod window_list;
pub mod x11;

pub mod incoming_laws;
pub mod outgoing_laws;
pub mod selection_laws;
pub mod shared_laws;
