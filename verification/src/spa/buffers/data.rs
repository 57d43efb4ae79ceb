//! Data blocks of a buffer.
use vstd::prelude::*;

use crate::spa::buffers::chunk::ChunkRef;

verus! {

/// Flags of a data block.
pub struct Flags;

impl Flags {
    pub const NONE: u32 = 0;
    /// The data can be read.
    pub const READABLE: u32 = 1;
    /// The data can be written.
    pub const WRITABLE: u32 = 2;
    /// The data pointer can be changed.
    pub const DYNAMIC: u32 = 4;
    /// The data can be read and written.
    pub const READWRITE: u32 = 3;
}

/// Types of data blocks.
pub struct DataType;

impl DataType {
    pub const INVALID: u32 = 0;
    /// Pointer to memory, the data field holds it.
    pub const MEM_PTR: u32 = 1;
    /// Generic file descriptor to memory.
    pub const MEM_FD: u32 = 2;
    /// File descriptor of a DMA buffer.
    pub const DMA_BUF: u32 = 3;
    /// Memory identified by an id.
    pub const MEM_ID: u32 = 4;
    pub const LAST: u32 = 5;
}

/// A data block of a buffer: where its memory is, and the chunk of valid data.
#[derive(Debug, Clone, Copy, PartialEq, Eq, Structural)]
pub struct DataRef {
    pub type_: u32,
    pub flags: u32,
    pub fd: i64,
    pub map_offset: u32,
    pub max_size: u32,
    /// Address of the mapped memory.
    pub data: u64,
    pub chunk: ChunkRef,
}

impl DataRef {
    /// Type of the memory, see [DataType].
    pub fn type_(&self) -> (v: u32)
        ensures
            v == self.type_,
    {
        self.type_
    }

    /// Flags of the block, see [Flags].
    pub fn flags(&self) -> (v: u32)
        ensures
            v == self.flags,
    {
        self.flags
    }

    /// File descriptor of the memory.
    pub fn fd(&self) -> (v: i32)
        ensures
            v == self.fd as i32,
    {
        self.fd as i32
    }

    /// Offset to map the file descriptor at.
    pub fn map_offset(&self) -> (v: u32)
        ensures
            v == self.map_offset,
    {
        self.map_offset
    }

    /// Maximum size of the memory.
    pub fn max_size(&self) -> (v: u32)
        ensures
            v == self.max_size,
    {
        self.max_size
    }

    /// Address of the mapped memory.
    pub fn data(&self) -> (v: u64)
        ensures
            v == self.data,
    {
        self.data
    }

    /// The chunk of valid data.
    pub fn chunk(&self) -> (v: &ChunkRef)
        ensures
            *v == self.chunk,
    {
        &self.chunk
    }
}

} // verus!
