//! A buffering writer for drawing over a session.
//!
//! A terminal-drawing library wants a byte sink; a session wants whole
//! frames to send. The writer collects everything drawn since the last
//! take, and the glue sends the taken bytes down the channel.

use vstd::prelude::*;

verus! {

/// A byte sink that buffers until its contents are taken.
#[derive(Debug, PartialEq, Eq)]
pub struct SessionWriter {
    buffer: Vec<u8>,
}

impl View for SessionWriter {
    type V = Seq<u8>;

    closed spec fn view(&self) -> Seq<u8> {
        self.buffer@
    }
}

impl SessionWriter {
    /// An empty writer.
    pub fn new() -> (r: SessionWriter)
        ensures
            r@ == Seq::<u8>::empty(),
    {
        SessionWriter { buffer: Vec::with_capacity(4096) }
    }

    /// Everything written since the last take; the buffer is left empty.
    pub fn take(&mut self) -> (r: Vec<u8>)
        ensures
            r@ == old(self)@,
            final(self)@ == Seq::<u8>::empty(),
    {
        let mut buffer: Vec<u8> = Vec::new();
        std::mem::swap(&mut buffer, &mut self.buffer);
        buffer
    }

    /// Append `buf` to the buffer; the whole slice is accepted.
    pub fn write(&mut self, buf: &[u8]) -> (r: usize)
        ensures
            final(self)@ == old(self)@ + buf@,
            r == buf@.len(),
    {
        self.buffer.extend_from_slice(buf);
        buf.len()
    }

    /// Nothing to flush: the buffer is drained only by [`Self::take`].
    pub fn flush(&self)
    {
    }
}

} // verus!
