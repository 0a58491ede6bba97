//! A plain descriptor of a buffer's location for a host that reads linear
//! memory directly: a start offset and an element count, as plain values.
//! The host side turns a live buffer's address into the offset and back; the
//! descriptor itself never owns or touches the memory it points at.

use vstd::prelude::*;

verus! {

/// Where a contiguous export buffer lies: its start offset in the host's
/// linear memory and how many elements it holds.
#[derive(Clone, Copy, Debug, PartialEq, Eq, Structural)]
pub struct ByteStream {
    pub offset: usize,
    pub size: usize,
}

impl ByteStream {
    /// Describe a buffer by its start offset and element count.
    pub fn new(offset: usize, size: usize) -> (r: ByteStream)
        ensures
            r.offset == offset,
            r.size == size,
    {
        ByteStream { offset, size }
    }

    /// The described buffer's start offset.
    pub fn offset(&self) -> (r: usize)
        ensures
            r == self.offset,
    {
        self.offset
    }

    /// The described buffer's element count.
    pub fn size(&self) -> (r: usize)
        ensures
            r == self.size,
    {
        self.size
    }
}

} // verus!
