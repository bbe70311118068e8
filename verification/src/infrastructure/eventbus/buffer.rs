use vstd::prelude::*;
use super::error::{EventBusError, Result};
use super::message::{try_decode_frame, try_decode_outcome, RawFrame};
use super::byte_buffers::{
    bytes_mut_as_slice, bytes_mut_contents, bytes_mut_extend, bytes_mut_len, bytes_mut_new,
    bytes_mut_split_to,
};
use bytes::BytesMut;

verus! {

/// Bytes read from a stream that have not yet formed a whole frame.
pub struct FrameBuffer {
    bytes: BytesMut,
}

impl View for FrameBuffer {
    type V = Seq<u8>;

    closed spec fn view(&self) -> Seq<u8> {
        bytes_mut_contents(self.bytes)
    }
}

impl FrameBuffer {
    /// An empty buffer.
    pub fn new() -> (b: FrameBuffer)
        ensures
            b@ == Seq::<u8>::empty(),
    {
        FrameBuffer { bytes: bytes_mut_new() }
    }

    /// How many bytes are waiting.
    pub fn len(&self) -> (n: usize)
        ensures
            n == self@.len(),
    {
        bytes_mut_len(&self.bytes)
    }

    /// Appends bytes just read. The buffer holds at most `isize::MAX`
    /// bytes.
    pub fn extend(&mut self, data: &[u8])
        requires
            old(self)@.len() + data@.len() <= isize::MAX,
        ensures
            final(self)@ == old(self)@ + data@,
    {
        bytes_mut_extend(&mut self.bytes, data);
    }

    /// Takes the frame at the front of the buffer, if a whole one is there:
    /// its bytes leave the buffer and whatever follows stays. While the
    /// frame is incomplete nothing changes; a malformed frame is an error
    /// and also changes nothing.
    pub fn try_pop(&mut self) -> (r: Result<Option<RawFrame>>)
        ensures
            match (r, try_decode_outcome(old(self)@)) {
                (Ok(None), Ok(None)) => final(self)@ == old(self)@,
                (Ok(Some(raw)), Ok(Some((frame, total)))) => raw.matches_frame(frame)
                    && final(self)@ == old(self)@.subrange(total as int, old(self)@.len() as int),
                (Err(EventBusError::Decode(text)), Err(f)) => text@ == f.text() && final(self)@
                    == old(self)@,
                _ => false,
            },
    {
        match try_decode_frame(bytes_mut_as_slice(&self.bytes)) {
            Ok(Some((raw, used))) => {
                let _consumed = bytes_mut_split_to(&mut self.bytes, used);
                Ok(Some(raw))
            },
            Ok(None) => Ok(None),
            Err(e) => Err(e),
        }
    }
}

} // verus!
