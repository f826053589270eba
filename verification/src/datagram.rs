//! The receive buffer: how large it has to be, and what a smaller one
//! loses.

use vstd::prelude::*;
use vstd::slice::slice_subrange;
use vstd::slice::slice_to_vec;

verus! {

/// Size in bytes of the buffer that each receive is given: 2^16, no less
/// than any UDP payload.
pub const BUFFER_SIZE: usize = 65536;

/// The largest payload of a UDP datagram over IPv4, in bytes.
pub const MAX_DATAGRAM_SIZE: usize = 65527;

/// What a receive hands over when `datagram` arrives and the buffer holds
/// `capacity` bytes: the datagram where it fits, else its first `capacity`
/// bytes, the rest being dropped without a trace.
pub open spec fn delivered(datagram: Seq<u8>, capacity: nat) -> Seq<u8> {
    if datagram.len() <= capacity {
        datagram
    } else {
        datagram.take(capacity as int)
    }
}

/// A buffer of [`BUFFER_SIZE`] bytes takes every UDP datagram whole, the
/// empty one and the largest one included.
pub proof fn lemma_buffer_takes_every_datagram(datagram: Seq<u8>)
    requires
        datagram.len() <= MAX_DATAGRAM_SIZE,
    ensures
        delivered(datagram, BUFFER_SIZE as nat) == datagram,
{
}

/// A buffer shorter than the datagram loses data: what is handed over is
/// the datagram's first `capacity` bytes, which is not the datagram.
pub proof fn lemma_short_buffer_truncates(datagram: Seq<u8>, capacity: nat)
    requires
        datagram.len() > capacity,
    ensures
        delivered(datagram, capacity).len() == capacity,
        delivered(datagram, capacity) == datagram.take(capacity as int),
        delivered(datagram, capacity) != datagram,
{
}

/// The bytes that a receive with a buffer of `capacity` bytes hands over
/// for `datagram`.
pub fn deliver(datagram: &[u8], capacity: usize) -> (payload: Vec<u8>)
    ensures
        payload@ == delivered(datagram@, capacity as nat),
{
    if datagram.len() <= capacity {
        slice_to_vec(datagram)
    } else {
        let front = slice_subrange(datagram, 0, capacity);
        assert(front@ =~= datagram@.take(capacity as int));
        slice_to_vec(front)
    }
}

} // verus!
