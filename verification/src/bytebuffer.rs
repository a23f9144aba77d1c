//! A buffer of bytes that wait to be written.

use vstd::prelude::*;

verus! {

/// A growing run of bytes.
#[derive(Debug)]
pub struct ByteBuffer(pub Vec<u8>);

impl View for ByteBuffer {
    type V = Seq<u8>;

    open spec fn view(&self) -> Seq<u8> {
        self.0@
    }
}

impl ByteBuffer {
    /// An empty buffer. `cap` is the number of bytes that room is asked
    /// for beforehand; it changes nothing of what the buffer holds.
    pub fn new(cap: usize) -> (b: ByteBuffer)
        ensures
            b@ == Seq::<u8>::empty(),
    {
        ByteBuffer(Vec::with_capacity(cap))
    }

    /// An empty buffer. `cap` is the number of bytes that room is asked
    /// for beforehand; it changes nothing of what the buffer holds.
    pub fn with_capacity(cap: usize) -> (b: ByteBuffer)
        ensures
            b@ == Seq::<u8>::empty(),
    {
        ByteBuffer::new(cap)
    }

    /// How many bytes the buffer holds.
    pub fn len(&self) -> (n: usize)
        ensures
            n == self@.len(),
    {
        self.0.len()
    }

    /// Appends all of `bytes`.
    pub fn write_all(&mut self, bytes: &[u8])
        ensures
            final(self)@ == old(self)@ + bytes@,
    {
        self.0.extend_from_slice(bytes);
    }

    /// Empties the buffer.
    pub fn clear(&mut self)
        ensures
            final(self)@ == Seq::<u8>::empty(),
    {
        self.0.clear();
    }

    /// The bytes of the buffer.
    pub fn as_slice(&self) -> (s: &[u8])
        ensures
            s@ == self@,
    {
        self.0.as_slice()
    }
}

} // verus!
