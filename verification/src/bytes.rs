//! Byte-reading abstraction used by the body variant decoders.
//!
//! A [`ByteReader`] is a cursor over a message payload. The variants decoded
//! so far only need to consume all remaining bytes at once; richer cursor
//! operations (fixed-width reads, length-prefixed reads) are an extension
//! point for future variants.

use vstd::prelude::*;
use vstd::slice::slice_to_vec;

verus! {

/// A cursor over a byte payload.
pub trait ByteReader {
    /// The bytes that have not been consumed yet.
    spec fn remaining(&self) -> Seq<u8>;

    /// Consume and return all remaining bytes.
    fn read_remaining(&mut self) -> (bytes: Vec<u8>)
        ensures
            bytes@ == old(self).remaining(),
            final(self).remaining() == Seq::<u8>::empty(),
    ;
}

/// A [`ByteReader`] over a borrowed byte slice.
pub struct SliceByteReader<'a> {
    data: &'a [u8],
    consumed: bool,
}

impl<'a> SliceByteReader<'a> {
    /// Create a reader over the given payload.
    pub fn new(data: &'a [u8]) -> (reader: Self)
        ensures
            reader.remaining() == data@,
    {
        SliceByteReader { data, consumed: false }
    }
}

impl<'a> ByteReader for SliceByteReader<'a> {
    closed spec fn remaining(&self) -> Seq<u8> {
        if self.consumed {
            Seq::<u8>::empty()
        } else {
            self.data@
        }
    }

    fn read_remaining(&mut self) -> (bytes: Vec<u8>) {
        if self.consumed {
            Vec::new()
        } else {
            self.consumed = true;
            slice_to_vec(self.data)
        }
    }
}

} // verus!
