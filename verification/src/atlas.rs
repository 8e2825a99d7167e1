//! The grid of tiles in a texture atlas.

use crate::bindings::{BindingType, BufferBindingType};
use vstd::prelude::*;

verus! {

/// Number of bytes that the properties of an atlas take in a buffer.
pub const ATLAS_PROPERTIES_SIZE: usize = 8;

/// The size of an atlas and of its tiles, in texels.
#[derive(Clone, Copy, Debug, PartialEq, Eq, Structural)]
pub struct TextureAtlasProperties {
    pub width: u16,
    pub height: u16,
    pub tile_width: u16,
    pub tile_height: u16,
}

/// The two bytes of `x`, least significant first.
pub open spec fn le_bytes_u16(x: u16) -> Seq<u8> {
    seq![(x % 256) as u8, (x / 256) as u8]
}

fn write_u16_le(out: &mut Vec<u8>, x: u16)
    ensures
        final(out)@ == old(out)@ + le_bytes_u16(x),
{
    assert((x & 0xff) == x % 256 && (x >> 8) == x / 256 && (x >> 8) < 256) by (bit_vector);
    out.push((x & 0xff) as u8);
    out.push((x >> 8) as u8);
    assert(out@ =~= old(out)@ + le_bytes_u16(x));
}

impl TextureAtlasProperties {
    /// The properties of a square atlas of `side` texels with square tiles of
    /// `tile` texels.
    pub fn new_square(side: u16, tile: u16) -> (properties: TextureAtlasProperties)
        ensures
            properties == (TextureAtlasProperties {
                width: side,
                height: side,
                tile_width: tile,
                tile_height: tile,
            }),
    {
        TextureAtlasProperties { width: side, height: side, tile_width: tile, tile_height: tile }
    }

    /// The bytes that the properties take in a buffer: width, height, tile
    /// width and tile height, each as a little-endian 16-bit word.
    pub open spec fn encode(self) -> Seq<u8> {
        le_bytes_u16(self.width) + le_bytes_u16(self.height) + le_bytes_u16(self.tile_width)
            + le_bytes_u16(self.tile_height)
    }

    /// The bytes that the properties take in a buffer.
    pub fn to_bytes(&self) -> (bytes: Vec<u8>)
        ensures
            bytes@ == self.encode(),
            bytes@.len() == ATLAS_PROPERTIES_SIZE,
    {
        let mut bytes: Vec<u8> = Vec::new();
        write_u16_le(&mut bytes, self.width);
        write_u16_le(&mut bytes, self.height);
        write_u16_le(&mut bytes, self.tile_width);
        write_u16_le(&mut bytes, self.tile_height);
        assert(bytes@ =~= self.encode());
        bytes
    }

    /// The kind of binding slot through which shaders read the properties:
    /// a uniform buffer.
    pub fn binding_type() -> (ty: BindingType)
        ensures
            ty == (BindingType::Buffer {
                ty: BufferBindingType::Uniform,
                has_dynamic_offset: false,
                min_binding_size: 0,
            }),
    {
        BindingType::Buffer {
            ty: BufferBindingType::Uniform,
            has_dynamic_offset: false,
            min_binding_size: 0,
        }
    }
}

} // verus!
