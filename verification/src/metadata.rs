//! The record that all instances of one batch share.

use crate::binary32::Binary32;
use crate::bytes::{le_bytes, lemma_le_bytes_injective, write_u32_le};
use crate::vector::Vec2;
use vstd::prelude::*;

verus! {

/// Number of bytes that the metadata of a batch takes in a buffer.
pub const METADATA_SIZE: usize = 20;

/// The bit of the flag that snaps instances to the grid.
pub const SNAP_INSTANCES_TO_GRID: u32 = 0b001;

/// A set of batch flags, one bit each.
#[derive(Clone, Copy, Debug, PartialEq, Eq, Structural)]
pub struct BatchMetadataFlags {
    bits: u32,
}

/// What all instances of one batch have in common.
#[derive(Clone, Copy, Debug, PartialEq, Eq, Structural)]
pub struct BatchMetadata {
    pub flags: BatchMetadataFlags,
    pub origin: Vec2,
    pub scale: Binary32,
    pub zorder: u32,
}

impl BatchMetadataFlags {
    /// The bits of the flags in the set.
    pub closed spec fn spec_bits(self) -> u32 {
        self.bits
    }

    /// A set of flags is determined by its bits.
    pub proof fn lemma_bits_determine(self, other: BatchMetadataFlags)
        requires
            self.spec_bits() == other.spec_bits(),
        ensures
            self == other,
    {
    }

    /// The set without any flag.
    pub fn empty() -> (flags: BatchMetadataFlags)
        ensures
            flags.spec_bits() == 0,
    {
        BatchMetadataFlags { bits: 0 }
    }

    /// The set of the known flags among `bits`; other bits are dropped.
    pub fn from_bits_truncate(bits: u32) -> (flags: BatchMetadataFlags)
        ensures
            flags.spec_bits() == bits & SNAP_INSTANCES_TO_GRID,
    {
        BatchMetadataFlags { bits: bits & SNAP_INSTANCES_TO_GRID }
    }

    /// The bits of the flags in the set.
    pub fn bits(self) -> (bits: u32)
        ensures
            bits == self.spec_bits(),
    {
        self.bits
    }

    /// Whether every flag of `other` is in this set.
    pub fn contains(self, other: BatchMetadataFlags) -> (all: bool)
        ensures
            all == (self.spec_bits() & other.spec_bits() == other.spec_bits()),
    {
        self.bits & other.bits == other.bits
    }

    /// The flags that are in either set.
    pub fn union(self, other: BatchMetadataFlags) -> (flags: BatchMetadataFlags)
        ensures
            flags.spec_bits() == self.spec_bits() | other.spec_bits(),
    {
        BatchMetadataFlags { bits: self.bits | other.bits }
    }
}

impl BatchMetadata {
    /// The bytes that the metadata takes in a buffer: flags, origin, scale
    /// and z-order, each as little-endian 32-bit words.
    pub open spec fn encode(self) -> Seq<u8> {
        le_bytes(self.flags.spec_bits()) + le_bytes(self.origin.x.spec_bits()) + le_bytes(
            self.origin.y.spec_bits(),
        ) + le_bytes(self.scale.spec_bits()) + le_bytes(self.zorder)
    }

    /// The metadata always takes `METADATA_SIZE` bytes.
    pub proof fn lemma_encode_len(self)
        ensures
            self.encode().len() == METADATA_SIZE,
    {
    }

    /// Different metadata take different bytes: the device holds the
    /// metadata of the host exactly if it holds the same bytes.
    pub proof fn lemma_encode_injective(self, other: BatchMetadata)
        requires
            self.encode() == other.encode(),
        ensures
            self == other,
    {
        let a = self.encode();
        let b = other.encode();
        assert(a.subrange(0, 4) =~= le_bytes(self.flags.spec_bits()));
        assert(b.subrange(0, 4) =~= le_bytes(other.flags.spec_bits()));
        assert(a.subrange(4, 8) =~= le_bytes(self.origin.x.spec_bits()));
        assert(b.subrange(4, 8) =~= le_bytes(other.origin.x.spec_bits()));
        assert(a.subrange(8, 12) =~= le_bytes(self.origin.y.spec_bits()));
        assert(b.subrange(8, 12) =~= le_bytes(other.origin.y.spec_bits()));
        assert(a.subrange(12, 16) =~= le_bytes(self.scale.spec_bits()));
        assert(b.subrange(12, 16) =~= le_bytes(other.scale.spec_bits()));
        assert(a.subrange(16, 20) =~= le_bytes(self.zorder));
        assert(b.subrange(16, 20) =~= le_bytes(other.zorder));
        lemma_le_bytes_injective(self.flags.spec_bits(), other.flags.spec_bits());
        lemma_le_bytes_injective(self.origin.x.spec_bits(), other.origin.x.spec_bits());
        lemma_le_bytes_injective(self.origin.y.spec_bits(), other.origin.y.spec_bits());
        lemma_le_bytes_injective(self.scale.spec_bits(), other.scale.spec_bits());
        lemma_le_bytes_injective(self.zorder, other.zorder);
        self.flags.lemma_bits_determine(other.flags);
        self.origin.x.lemma_bits_determine(other.origin.x);
        self.origin.y.lemma_bits_determine(other.origin.y);
        self.scale.lemma_bits_determine(other.scale);
    }

    /// The bytes that the metadata takes in a buffer.
    pub fn to_bytes(&self) -> (bytes: Vec<u8>)
        ensures
            bytes@ == self.encode(),
    {
        let mut bytes: Vec<u8> = Vec::new();
        write_u32_le(&mut bytes, self.flags.bits());
        write_u32_le(&mut bytes, self.origin.x.to_bits());
        write_u32_le(&mut bytes, self.origin.y.to_bits());
        write_u32_le(&mut bytes, self.scale.to_bits());
        write_u32_le(&mut bytes, self.zorder);
        assert(bytes@ =~= self.encode());
        bytes
    }
}

} // verus!
