//! What a device has to allocate for a buffer.

use vstd::prelude::*;

verus! {

/// The bit of buffers that copies can write to.
pub const COPY_DST: u32 = 8;

/// The bit of buffers that vertex data is read from.
pub const VERTEX: u32 = 32;

/// The bit of buffers that shaders read as uniform data.
pub const UNIFORM: u32 = 64;

/// The ways in which a buffer may be used, one bit each.
#[derive(Clone, Copy, Debug, PartialEq, Eq, Structural)]
pub struct BufferUsages {
    bits: u32,
}

/// A buffer to allocate: its size in bytes and how it will be used. The
/// device hands such a buffer out filled with zeros.
#[derive(Clone, Copy, Debug, PartialEq, Eq, Structural)]
pub struct BufferDescriptor {
    pub size: u64,
    pub usage: BufferUsages,
}

/// A buffer to allocate together with its first contents.
#[derive(Debug)]
pub struct BufferInit {
    pub contents: Vec<u8>,
    pub usage: BufferUsages,
}

impl BufferUsages {
    /// The usage bits.
    pub closed spec fn spec_bits(self) -> u32 {
        self.bits
    }

    /// The usages with the given bits.
    pub fn from_bits(bits: u32) -> (usages: BufferUsages)
        ensures
            usages.spec_bits() == bits,
    {
        BufferUsages { bits }
    }

    /// The usage bits.
    pub fn bits(self) -> (bits: u32)
        ensures
            bits == self.spec_bits(),
    {
        self.bits
    }
}

/// A zero-filled buffer of `size` bytes for the given usages.
pub fn create_buffer(size: usize, usage: BufferUsages) -> (buffer: BufferInit)
    ensures
        buffer.usage == usage,
        buffer.contents@ == Seq::new(size as nat, |i: int| 0u8),
{
    let mut contents: Vec<u8> = Vec::new();
    let mut i: usize = 0;
    while i < size
        invariant
            i <= size,
            contents@ == Seq::new(i as nat, |k: int| 0u8),
        decreases size - i,
    {
        contents.push(0);
        i += 1;
        assert(contents@ =~= Seq::new(i as nat, |k: int| 0u8));
    }
    BufferInit { contents, usage }
}

} // verus!
