//! How much a transfer may hold, how many may run, and how long they may stand still.

use crate::clock::Duration;
use vstd::prelude::*;

verus! {

/// The most bytes one property is given at a time. The protocol lets the maximum vary widely and
/// offers no way to ask for it: a request that is too long just fails with a `Length` error.
pub const INCR_CHUNK_SIZE: usize = 64 * 1024;

/// The most transfers of one selection into Wayland clients that may wait on their X owner's
/// answer at once, and separately the most that may be under way (answered, streaming to their
/// reader) at once. Each holds a file descriptor and a window, and an answered one a slice of
/// data; a paste and a clipboard manager reading together is the usual worst case. A read past
/// either bound is refused -- the reader sees an empty transfer -- not queued.
pub const MAX_SELECTION_TRANSFERS: usize = 8;

/// A transfer, either way, that has not moved for this long (30 s) is dropped the next time the
/// window manager looks: a new request, a new answer, a change of owner.
pub const SELECTION_TRANSFER_TIMEOUT: Duration = 30_000_000_000;

/// Once a selection has changed hands (or its owner has gone), a transfer started under the
/// previous owner that is waiting on it for its next chunk, idle for at least this long (1 s), is
/// dropped. One that is still moving is left to finish: ending it would hand the reader a partial
/// selection as if it were whole.
pub const OWNER_CHANGE_GRACE: Duration = 1_000_000_000;

/// How often (1 s) the window manager sweeps selection transfers while any are in flight. The
/// timer is not armed at all while none are.
pub const SWEEP_INTERVAL: Duration = 1_000_000_000;

/// The most transfers out of one selection (a Wayland selection read by X clients) one X client
/// may have in flight at once. Each holds a pipe and up to two chunks of data until the requestor
/// has taken it; a client pasting reads one or two targets at a time.
pub const MAX_OUTGOING_PER_CLIENT: usize = 4;

/// The most transfers out of one selection in flight at once, across all X clients.
pub const MAX_OUTGOING_TRANSFERS: usize = 16;

/// How much of a selection property an incoming transfer reads at a time, in 32-bit units
/// (`GetProperty` counts in those): one [`INCR_CHUNK_SIZE`]. The next slice is read only once this
/// one has been written into the reader's pipe, so a transfer never buffers more than one slice,
/// however large the owner makes the property.
pub const PROPERTY_SLICE: u32 = (INCR_CHUNK_SIZE / 4) as u32;

} // verus!
