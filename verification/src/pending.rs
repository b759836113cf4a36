//! Conversions that an X owner has been asked for and has not answered.

use crate::clock::Duration;
use crate::clock::Instant;
use crate::x11::X11Window;
use vstd::prelude::*;

verus! {

/// A conversion of an X selection, requested for a Wayland reader, that its owner has not
/// answered yet.
pub struct PendingTransfer<R> {
    pub window: X11Window,
    /// The reader's end, and whatever else its holder keeps for as long as the transfer lasts.
    pub reader: R,
    pub since: Instant,
}

impl<R> PendingTransfer<R> {
    /// A conversion asked for at `now`, into a property of `window`.
    pub fn new(window: X11Window, reader: R, now: Instant) -> (transfer: Self)
        ensures
            transfer == (PendingTransfer { window, reader, since: now }),
    {
        PendingTransfer { window, reader, since: now }
    }

    /// Whether the conversion is to be given up: it has waited for `timeout`, or its reader has
    /// left.
    pub open spec fn stale(self, now: Instant, timeout: Duration, reader_gone: bool) -> bool {
        now.since(self.since) >= timeout || reader_gone
    }

    /// Whether the conversion is to be given up: it has waited for `timeout`, or its reader has
    /// left.
    pub fn is_stale(&self, now: Instant, timeout: Duration, reader_gone: bool) -> (stale: bool)
        ensures
            stale == self.stale(now, timeout, reader_gone),
            stale <==> timeout == 0 || now.nanos - self.since.nanos >= timeout || reader_gone,
    {
        !(now.saturating_duration_since(self.since) < timeout && !reader_gone)
    }
}

} // verus!
