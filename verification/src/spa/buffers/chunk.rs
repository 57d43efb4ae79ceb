//! Chunks: the valid region of a data block of a buffer.
use vstd::prelude::*;

verus! {

/// Flags of a chunk.
pub struct Flags;

impl Flags {
    pub const NONE: i32 = 0;
    /// The chunk data is corrupted in some way.
    pub const CORRUPTED: i32 = 1;
}

/// The valid region of a data block: offset, size, stride and flags.
#[derive(Debug, Clone, Copy, PartialEq, Eq, Structural)]
pub struct ChunkRef {
    pub offset: u32,
    pub size: u32,
    pub stride: i32,
    pub flags: i32,
}

impl ChunkRef {
    /// Offset of the valid data in the block.
    pub fn offset(&self) -> (v: u32)
        ensures
            v == self.offset,
    {
        self.offset
    }

    /// Set the offset of the valid data.
    pub fn set_offset(&mut self, offset: u32)
        ensures
            *final(self) == (ChunkRef { offset, ..*old(self) }),
    {
        self.offset = offset;
    }

    /// Size of the valid data.
    pub fn size(&self) -> (v: u32)
        ensures
            v == self.size,
    {
        self.size
    }

    /// Set the size of the valid data.
    pub fn set_size(&mut self, size: u32)
        ensures
            *final(self) == (ChunkRef { size, ..*old(self) }),
    {
        self.size = size;
    }

    /// Stride of the valid data.
    pub fn stride(&self) -> (v: i32)
        ensures
            v == self.stride,
    {
        self.stride
    }

    /// Set the stride of the valid data.
    pub fn set_stride(&mut self, stride: i32)
        ensures
            *final(self) == (ChunkRef { stride, ..*old(self) }),
    {
        self.stride = stride;
    }

    /// Flags of the chunk, see [Flags].
    pub fn flags(&self) -> (v: i32)
        ensures
            v == self.flags,
    {
        self.flags
    }

    /// Set the flags of the chunk.
    pub fn set_flags(&mut self, flags: i32)
        ensures
            *final(self) == (ChunkRef { flags, ..*old(self) }),
    {
        self.flags = flags;
    }
}

} // verus!
