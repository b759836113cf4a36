//! Whether the reader at the far end of a pipe is still there.

use rustix::event::PollFlags;
use vstd::prelude::*;

verus! {

/// The bits of `rustix::event::PollFlags::ERR`. Trusted: the constant is `POLLERR`, which is bit 3
/// on every Linux architecture.
#[verifier::external_body]
fn poll_err() -> (bits: u16)
    ensures
        bits == 8,
{
    PollFlags::ERR.bits() as u16
}

/// The bits of `rustix::event::PollFlags::HUP`. Trusted: the constant is `POLLHUP`, which is bit 4
/// on every Linux architecture.
#[verifier::external_body]
fn poll_hup() -> (bits: u16)
    ensures
        bits == 16,
{
    PollFlags::HUP.bits() as u16
}

/// `rustix::event::PollFlags::intersects`, on the bits of both operands. Trusted: the flags
/// intersect when some bit is set in both.
#[verifier::external_body]
fn poll_flags_intersect(flags: u16, other: u16) -> (some: bool)
    ensures
        some == (flags & other != 0),
{
    PollFlags::from_bits_retain(flags as _).intersects(PollFlags::from_bits_retain(other as _))
}

/// Whether a pipe that was polled for writing reports an error or a hang-up. Nothing is known of
/// one that could not be polled, and it counts as open.
pub open spec fn closed_by_reader<E>(polled: Result<u16, E>) -> bool {
    polled matches Ok(revents) && (revents & 8 != 0 || revents & 16 != 0)
}

/// Whether the reader holding the other end of a pipe has closed it: polled for writing, the pipe
/// reported an error or hang-up. `polled` is what it reported, or why it could not be polled.
pub fn reader_gone<E>(polled: Result<u16, E>) -> (gone: bool)
    ensures
        gone == closed_by_reader(polled),
{
    match polled {
        Ok(revents) => {
            let hung_up: u16 = poll_err() | poll_hup();
            assert((revents & (8u16 | 16u16) != 0) == (revents & 8 != 0 || revents & 16 != 0))
                by (bit_vector);
            poll_flags_intersect(revents, hung_up)
        },
        Err(_) => false,
    }
}

} // verus!
