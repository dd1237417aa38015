//! A fixed-capacity byte queue that collects stream data until whole
//! packets can be taken from it.
use vstd::prelude::*;
use ringbuf::traits::{Consumer, Observer, Producer};

verus! {

/// A byte ring buffer (a heap-allocated `ringbuf` buffer of fixed
/// capacity).
#[verifier::external_body]
pub struct ByteRing {
    rb: ringbuf::HeapRb<u8>,
}

/// The bytes in the ring, oldest first.
pub uninterp spec fn ring_contents(r: ByteRing) -> Seq<u8>;

/// The number of bytes the ring can hold, fixed when it was made.
pub uninterp spec fn ring_capacity(r: ByteRing) -> nat;

impl ByteRing {
    /// An empty ring of the given capacity.
    ///
    /// Trusted: `HeapRb::new` makes an empty buffer of exactly that
    /// capacity; it panics on a zero capacity, which `requires` leaves out.
    #[verifier::external_body]
    pub fn new(capacity: usize) -> (r: ByteRing)
        requires
            capacity > 0,
        ensures
            ring_contents(r) == Seq::<u8>::empty(),
            ring_capacity(r) == capacity,
    {
        ByteRing { rb: ringbuf::HeapRb::<u8>::new(capacity) }
    }

    /// Appends as much of `data` as there is room for; returns how many
    /// bytes were taken.
    ///
    /// Trusted: `Producer::push_slice` writes the first
    /// `min(data.len(), vacant)` bytes behind the ones held and returns
    /// that count.
    #[verifier::external_body]
    pub fn push_slice(&mut self, data: &[u8]) -> (n: usize)
        ensures
            ring_contents(*old(self)).len() <= ring_capacity(*old(self)) ==> n as int == if data@.len()
                <= ring_capacity(*old(self)) - ring_contents(*old(self)).len() {
                data@.len() as int
            } else {
                ring_capacity(*old(self)) - ring_contents(*old(self)).len()
            },
            ring_contents(*final(self)) == ring_contents(*old(self)) + data@.subrange(0, n as int),
            ring_capacity(*final(self)) == ring_capacity(*old(self)),
            ring_contents(*final(self)).len() <= ring_capacity(*final(self)),
    {
        self.rb.push_slice(data)
    }

    /// The number of bytes held.
    ///
    /// Trusted: `Observer::occupied_len` is the count of bytes held, which
    /// never exceeds the capacity.
    #[verifier::external_body]
    pub fn occupied_len(&self) -> (n: usize)
        ensures
            n == ring_contents(*self).len(),
            n <= ring_capacity(*self),
    {
        self.rb.occupied_len()
    }

    /// Copies the oldest bytes into `buf` without removing them; returns how
    /// many were copied (the smaller of the two lengths).
    ///
    /// Trusted: `Consumer::peek_slice` copies from the front of the buffer
    /// into the front of `buf` and leaves the rest of `buf` as it was.
    #[verifier::external_body]
    pub fn peek_slice(&self, buf: &mut [u8]) -> (n: usize)
        ensures
            n as int == if old(buf)@.len() <= ring_contents(*self).len() {
                old(buf)@.len() as int
            } else {
                ring_contents(*self).len() as int
            },
            final(buf)@ == ring_contents(*self).subrange(0, n as int) + old(buf)@.subrange(
                n as int,
                old(buf)@.len() as int,
            ),
    {
        self.rb.peek_slice(buf)
    }

    /// Moves the oldest bytes into `buf`; returns how many were moved (the
    /// smaller of the two lengths).
    ///
    /// Trusted: `Consumer::pop_slice` copies as `peek_slice` does and then
    /// removes the copied bytes from the front of the buffer.
    #[verifier::external_body]
    pub fn pop_slice(&mut self, buf: &mut [u8]) -> (n: usize)
        ensures
            n as int == if old(buf)@.len() <= ring_contents(*old(self)).len() {
                old(buf)@.len() as int
            } else {
                ring_contents(*old(self)).len() as int
            },
            final(buf)@ == ring_contents(*old(self)).subrange(0, n as int) + old(buf)@.subrange(
                n as int,
                old(buf)@.len() as int,
            ),
            ring_contents(*final(self)) == ring_contents(*old(self)).subrange(
                n as int,
                ring_contents(*old(self)).len() as int,
            ),
            ring_capacity(*final(self)) == ring_capacity(*old(self)),
            ring_contents(*final(self)).len() <= ring_capacity(*final(self)),
    {
        self.rb.pop_slice(buf)
    }
}

} // verus!
