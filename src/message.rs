//! A growable byte buffer that gathers one outgoing message.

use bytebuffer::ByteBuffer;
use vstd::prelude::*;

verus! {

#[verifier::external_type_specification]
#[verifier::external_body]
pub struct ExByteBuffer(ByteBuffer);

/// The bytes that a `ByteBuffer` holds.
pub uninterp spec fn buffer_data(b: ByteBuffer) -> Seq<u8>;

/// Where a `ByteBuffer` writes next: the byte position, and the number of
/// bits already written into a partly written byte.
pub uninterp spec fn buffer_write_cursor(b: ByteBuffer) -> (nat, nat);

/// Relies on bytebuffer's `ByteBuffer::new`: no bytes, both cursors at zero.
pub assume_specification[ ByteBuffer::new ]() -> (r: ByteBuffer)
    ensures
        buffer_data(r) == Seq::<u8>::empty(),
        buffer_write_cursor(r) == (0nat, 0nat),
;

/// Relies on bytebuffer's `ByteBuffer::write_bytes`: written at the write
/// cursor, which moves past them. From a cursor at the end with no partial
/// byte, that appends.
pub assume_specification[ ByteBuffer::write_bytes ](b: &mut ByteBuffer, bytes: &[u8])
    requires
        buffer_write_cursor(*old(b)) == (buffer_data(*old(b)).len(), 0nat),
        buffer_data(*old(b)).len() + bytes@.len() <= usize::MAX,
    ensures
        buffer_data(*final(b)) == buffer_data(*old(b)) + bytes@,
        buffer_write_cursor(*final(b)) == (buffer_data(*final(b)).len(), 0nat),
;

/// Relies on bytebuffer's `ByteBuffer::as_bytes`: a view of all the bytes held.
pub assume_specification[ ByteBuffer::as_bytes ](b: &ByteBuffer) -> (r: &[u8])
    ensures
        r@ == buffer_data(*b),
;

/// Relies on bytebuffer's `ByteBuffer::into_vec`: all the bytes held.
pub assume_specification[ ByteBuffer::into_vec ](b: ByteBuffer) -> (r: Vec<u8>)
    ensures
        r@ == buffer_data(b),
;

/// The bytes of one message under construction.
pub struct EMessage {
    buffer: ByteBuffer,
}

impl View for EMessage {
    type V = Seq<u8>;

    closed spec fn view(&self) -> Seq<u8> {
        buffer_data(self.buffer)
    }
}

impl EMessage {
    /// The buffer writes at its end, so each write appends.
    pub closed spec fn wf(&self) -> bool {
        buffer_write_cursor(self.buffer) == (buffer_data(self.buffer).len(), 0nat)
    }

    /// An empty message.
    pub fn new() -> (r: Self)
        ensures
            r.wf(),
            r@ == Seq::<u8>::empty(),
    {
        EMessage { buffer: ByteBuffer::new() }
    }

    /// A message that holds `buf`.
    pub fn from_bytes(buf: &[u8]) -> (r: Self)
        ensures
            r.wf(),
            r@ == buf@,
    {
        let mut msg = EMessage::new();
        proof {
            assert(buf@.len() == buf.len());
        }
        msg.append(buf);
        msg
    }

    /// Adds `bytes` at the end of the message.
    pub fn append(&mut self, bytes: &[u8])
        requires
            old(self).wf(),
            old(self)@.len() + bytes@.len() <= usize::MAX,
        ensures
            final(self).wf(),
            final(self)@ == old(self)@ + bytes@,
    {
        self.buffer.write_bytes(bytes);
    }

    /// The underlying buffer.
    pub fn get_stream(&self) -> (r: &ByteBuffer)
        ensures
            buffer_data(*r) == self@,
    {
        &self.buffer
    }

    /// A read-only view of the bytes held.
    pub fn as_slice(&self) -> (r: &[u8])
        ensures
            r@ == self@,
    {
        self.buffer.as_bytes()
    }

    /// A copy of the bytes held.
    pub fn get_raw_data(&self) -> (r: Vec<u8>)
        ensures
            r@ == self@,
    {
        vstd::slice::slice_to_vec(self.buffer.as_bytes())
    }

    /// The bytes held, giving up the message.
    pub fn into_bytes(self) -> (r: Vec<u8>)
        ensures
            r@ == self@,
    {
        self.buffer.into_vec()
    }
}

} // verus!
