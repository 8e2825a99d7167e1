//! The per-instance record of a batch and its layout in a vertex buffer.

use crate::binary32::Binary32;
use crate::bytes::{
    le_bytes, lemma_le_bytes_injective, lemma_twos_complement_injective, twos_complement,
    write_i32_le, write_u32_le,
};
use crate::color::Rgba;
use crate::vector::{IVec2, Vec2};
use vstd::prelude::*;

verus! {

/// Number of bytes that one instance takes in a buffer.
pub const INSTANCE_SIZE: usize = 20;

/// One drawn instance: where it is, how large, in which tint, with which texture.
#[derive(Clone, Copy, Debug, PartialEq, Eq, Structural)]
pub struct BatchInstance {
    position: IVec2,
    scale: Binary32,
    tint: Rgba,
    texture_index: u32,
}

/// The type of one vertex attribute as a shader reads it.
#[derive(Clone, Copy, Debug, PartialEq, Eq, Structural)]
pub enum VertexFormat {
    /// Two signed 32-bit integers.
    Sint32x2,
    /// One single-precision number.
    Float32,
    /// One unsigned 32-bit integer.
    Uint32,
}

/// How often the buffer advances to its next element.
#[derive(Clone, Copy, Debug, PartialEq, Eq, Structural)]
pub enum VertexStepMode {
    /// Once per vertex.
    Vertex,
    /// Once per instance.
    Instance,
}

/// One attribute of a buffer element: its type, where it starts, and the
/// shader input it feeds.
#[derive(Clone, Copy, Debug, PartialEq, Eq, Structural)]
pub struct VertexAttribute {
    pub format: VertexFormat,
    pub offset: u64,
    pub shader_location: u32,
}

/// How a shader reads the elements of a vertex buffer.
#[derive(Debug)]
pub struct VertexBufferLayout {
    pub array_stride: u64,
    pub step_mode: VertexStepMode,
    pub attributes: Vec<VertexAttribute>,
}

impl VertexFormat {
    /// Number of bytes that a value of this format takes.
    pub open spec fn spec_size(self) -> nat {
        match self {
            VertexFormat::Sint32x2 => 8,
            VertexFormat::Float32 => 4,
            VertexFormat::Uint32 => 4,
        }
    }

    /// Number of bytes that a value of this format takes.
    pub fn size(self) -> (n: u64)
        ensures
            n == self.spec_size(),
    {
        match self {
            VertexFormat::Sint32x2 => 8,
            VertexFormat::Float32 => 4,
            VertexFormat::Uint32 => 4,
        }
    }
}

/// The attributes of an instance in the order of their shader inputs.
pub open spec fn instance_attributes() -> Seq<VertexAttribute> {
    seq![
        VertexAttribute { format: VertexFormat::Sint32x2, offset: 0, shader_location: 0 },
        VertexAttribute { format: VertexFormat::Float32, offset: 8, shader_location: 1 },
        VertexAttribute { format: VertexFormat::Uint32, offset: 12, shader_location: 2 },
        VertexAttribute { format: VertexFormat::Uint32, offset: 16, shader_location: 3 },
    ]
}

impl BatchInstance {
    /// Where the instance is drawn.
    pub closed spec fn position(self) -> IVec2 {
        self.position
    }

    /// The factor by which the instance is scaled.
    pub closed spec fn scale(self) -> Binary32 {
        self.scale
    }

    /// The colour that the instance is tinted with.
    pub closed spec fn tint(self) -> Rgba {
        self.tint
    }

    /// Which texture the instance shows.
    pub closed spec fn texture_index(self) -> u32 {
        self.texture_index
    }

    /// The bytes of each attribute, in the order of `instance_attributes`.
    pub open spec fn attribute_bytes(self) -> Seq<Seq<u8>> {
        seq![
            le_bytes(twos_complement(self.position().x)) + le_bytes(
                twos_complement(self.position().y),
            ),
            le_bytes(self.scale().spec_bits()),
            self.tint().bytes(),
            le_bytes(self.texture_index()),
        ]
    }

    /// The bytes that the instance takes in a buffer.
    pub open spec fn encode(self) -> Seq<u8> {
        self.attribute_bytes()[0] + self.attribute_bytes()[1] + self.attribute_bytes()[2]
            + self.attribute_bytes()[3]
    }

    /// Whether this is the instance whose bytes are all zero.
    pub open spec fn is_zeroed(self) -> bool {
        &&& self.position() == (IVec2 { x: 0, y: 0 })
        &&& self.scale().spec_bits() == 0
        &&& self.tint().packed() == 0
        &&& self.texture_index() == 0
    }

    /// Every instance takes `INSTANCE_SIZE` bytes.
    pub proof fn lemma_encode_len(self)
        ensures
            self.encode().len() == INSTANCE_SIZE,
    {
    }

    /// The bytes of the zeroed instance are all zero.
    pub proof fn lemma_zeroed_encoding(self)
        requires
            self.is_zeroed(),
        ensures
            self.encode() == Seq::new(INSTANCE_SIZE as nat, |k: int| 0u8),
    {
        assert(self.encode() =~= Seq::new(INSTANCE_SIZE as nat, |k: int| 0u8));
    }

    /// Each attribute lies in the encoding at the offset that
    /// `instance_attributes` gives, with the size of its format, and the
    /// attributes fill the encoding without gaps.
    pub proof fn lemma_attributes_match_encoding(self, k: int)
        requires
            0 <= k < 4,
        ensures
            instance_attributes().len() == self.attribute_bytes().len() == 4,
            instance_attributes()[k].shader_location == k,
            self.attribute_bytes()[k].len() == instance_attributes()[k].format.spec_size(),
            self.encode().subrange(
                instance_attributes()[k].offset as int,
                instance_attributes()[k].offset + instance_attributes()[k].format.spec_size(),
            ) == self.attribute_bytes()[k],
            k + 1 < 4 ==> instance_attributes()[k + 1].offset == instance_attributes()[k].offset
                + instance_attributes()[k].format.spec_size(),
            k == 3 ==> instance_attributes()[k].offset + instance_attributes()[k].format.spec_size()
                == INSTANCE_SIZE,
    {
        let e = self.encode();
        let a = instance_attributes()[k];
        assert(e.subrange(a.offset as int, a.offset + a.format.spec_size())
            =~= self.attribute_bytes()[k]);
    }

    /// Different instances take different bytes.
    pub proof fn lemma_encode_injective(self, other: BatchInstance)
        requires
            self.encode() == other.encode(),
        ensures
            self == other,
    {
        let a = self.encode();
        let b = other.encode();
        assert(a.subrange(0, 4) =~= le_bytes(twos_complement(self.position().x)));
        assert(b.subrange(0, 4) =~= le_bytes(twos_complement(other.position().x)));
        assert(a.subrange(4, 8) =~= le_bytes(twos_complement(self.position().y)));
        assert(b.subrange(4, 8) =~= le_bytes(twos_complement(other.position().y)));
        assert(a.subrange(8, 12) =~= le_bytes(self.scale().spec_bits()));
        assert(b.subrange(8, 12) =~= le_bytes(other.scale().spec_bits()));
        assert(a.subrange(12, 16) =~= self.tint().bytes());
        assert(b.subrange(12, 16) =~= other.tint().bytes());
        assert(a.subrange(16, 20) =~= le_bytes(self.texture_index()));
        assert(b.subrange(16, 20) =~= le_bytes(other.texture_index()));
        lemma_le_bytes_injective(
            twos_complement(self.position().x),
            twos_complement(other.position().x),
        );
        lemma_le_bytes_injective(
            twos_complement(self.position().y),
            twos_complement(other.position().y),
        );
        lemma_twos_complement_injective(self.position().x, other.position().x);
        lemma_twos_complement_injective(self.position().y, other.position().y);
        lemma_le_bytes_injective(self.scale().spec_bits(), other.scale().spec_bits());
        self.scale().lemma_bits_determine(other.scale());
        assert(self.tint().bytes()[0] == other.tint().bytes()[0]);
        assert(self.tint().bytes()[1] == other.tint().bytes()[1]);
        assert(self.tint().bytes()[2] == other.tint().bytes()[2]);
        assert(self.tint().bytes()[3] == other.tint().bytes()[3]);
        self.tint().lemma_channels_determine(other.tint());
        lemma_le_bytes_injective(self.texture_index(), other.texture_index());
        self.lemma_fields_determine(other);
    }

    /// An instance is determined by its four fields.
    pub proof fn lemma_fields_determine(self, other: BatchInstance)
        requires
            self.position() == other.position(),
            self.scale() == other.scale(),
            self.tint() == other.tint(),
            self.texture_index() == other.texture_index(),
        ensures
            self == other,
    {
    }

    /// The instance whose bytes are all zero.
    pub fn zeroed() -> (instance: BatchInstance)
        ensures
            instance.is_zeroed(),
    {
        BatchInstance {
            position: IVec2::zero(),
            scale: Binary32::zero(),
            tint: Rgba::new(0, 0, 0, 0),
            texture_index: 0,
        }
    }

    /// The default instance.
    pub fn new() -> (instance: BatchInstance)
        ensures
            instance.is_default(),
    {
        BatchInstance::default()
    }

    /// Whether this is the default instance: at the origin, at scale one,
    /// tinted opaque white, with texture 0.
    pub open spec fn is_default(self) -> bool {
        &&& self.position() == (IVec2 { x: 0, y: 0 })
        &&& self.scale().spec_bits() == 0x3f80_0000
        &&& self.tint().packed() == 0xffff_ffff
        &&& self.texture_index() == 0
    }

    /// The default instance, moved to an integer position and scaled.
    pub fn new_i32(position: IVec2, scale: Binary32) -> (instance: BatchInstance)
        ensures
            instance.position() == position,
            instance.scale() == scale,
            instance.tint().packed() == 0xffff_ffff,
            instance.texture_index() == 0,
    {
        BatchInstance::default().with_position_i32(position).with_scale(scale)
    }

    /// The default instance, moved to a position given in single precision
    /// and scaled. The position is truncated as in `with_position_f32`.
    pub fn new_f32(position: Vec2, scale: Binary32) -> (instance: BatchInstance)
        ensures
            instance.position() == position.spec_as_ivec2(),
            instance.scale() == scale,
            instance.tint().packed() == 0xffff_ffff,
            instance.texture_index() == 0,
    {
        BatchInstance::default().with_position_f32(position).with_scale(scale)
    }

    /// The same instance with another tint.
    pub fn with_tint(self, tint: Rgba) -> (instance: BatchInstance)
        ensures
            instance.tint() == tint,
            instance.position() == self.position(),
            instance.scale() == self.scale(),
            instance.texture_index() == self.texture_index(),
    {
        BatchInstance { tint, ..self }
    }

    /// The same instance with another scale.
    pub fn with_scale(self, scale: Binary32) -> (instance: BatchInstance)
        ensures
            instance.scale() == scale,
            instance.position() == self.position(),
            instance.tint() == self.tint(),
            instance.texture_index() == self.texture_index(),
    {
        BatchInstance { scale, ..self }
    }

    /// The same instance with another texture.
    pub fn with_texture_idx(self, texture_index: u32) -> (instance: BatchInstance)
        ensures
            instance.texture_index() == texture_index,
            instance.position() == self.position(),
            instance.scale() == self.scale(),
            instance.tint() == self.tint(),
    {
        BatchInstance { texture_index, ..self }
    }

    /// The same instance at a position given in single precision.
    ///
    /// A position is stored as a pair of integers, which is what the shader
    /// reads. Each component is rounded toward zero; one beyond the range of
    /// `i32` becomes the nearest end of that range, and NaN becomes 0.
    pub fn with_position_f32(self, float: Vec2) -> (instance: BatchInstance)
        ensures
            instance.position() == float.spec_as_ivec2(),
            instance.scale() == self.scale(),
            instance.tint() == self.tint(),
            instance.texture_index() == self.texture_index(),
    {
        BatchInstance { position: float.as_ivec2(), ..self }
    }

    /// The same instance at an integer position.
    pub fn with_position_i32(self, position: IVec2) -> (instance: BatchInstance)
        ensures
            instance.position() == position,
            instance.scale() == self.scale(),
            instance.tint() == self.tint(),
            instance.texture_index() == self.texture_index(),
    {
        BatchInstance { position, ..self }
    }

    /// Appends the bytes of the instance to `out`.
    pub fn write_to(&self, out: &mut Vec<u8>)
        ensures
            final(out)@ == old(out)@ + self.encode(),
    {
        write_i32_le(out, self.position.x);
        write_i32_le(out, self.position.y);
        write_u32_le(out, self.scale.to_bits());
        self.tint.write_to(out);
        write_u32_le(out, self.texture_index);
        assert(out@ =~= old(out)@ + self.encode());
    }

    /// The bytes that the instance takes in a buffer.
    pub fn to_bytes(&self) -> (bytes: Vec<u8>)
        ensures
            bytes@ == self.encode(),
    {
        let mut bytes: Vec<u8> = Vec::new();
        self.write_to(&mut bytes);
        assert(bytes@ =~= self.encode());
        bytes
    }

    /// The attributes of an instance in the order of their shader inputs.
    pub fn attributes() -> (attributes: Vec<VertexAttribute>)
        ensures
            attributes@ == instance_attributes(),
    {
        let mut attributes: Vec<VertexAttribute> = Vec::new();
        attributes.push(
            VertexAttribute { format: VertexFormat::Sint32x2, offset: 0, shader_location: 0 },
        );
        attributes.push(
            VertexAttribute { format: VertexFormat::Float32, offset: 8, shader_location: 1 },
        );
        attributes.push(
            VertexAttribute { format: VertexFormat::Uint32, offset: 12, shader_location: 2 },
        );
        attributes.push(
            VertexAttribute { format: VertexFormat::Uint32, offset: 16, shader_location: 3 },
        );
        assert(attributes@ =~= instance_attributes());
        attributes
    }

    /// How a shader reads a buffer of instances: one element of
    /// `INSTANCE_SIZE` bytes per instance, with the attributes of
    /// `instance_attributes`.
    pub fn vertex_buffer_layout() -> (layout: VertexBufferLayout)
        ensures
            layout.array_stride == INSTANCE_SIZE,
            layout.step_mode == VertexStepMode::Instance,
            layout.attributes@ == instance_attributes(),
    {
        VertexBufferLayout {
            array_stride: INSTANCE_SIZE as u64,
            step_mode: VertexStepMode::Instance,
            attributes: BatchInstance::attributes(),
        }
    }
}

impl Default for BatchInstance {
    /// At the origin, at scale one, tinted opaque white, with texture 0.
    fn default() -> (instance: BatchInstance)
        ensures
            instance.is_default(),
    {
        BatchInstance {
            position: IVec2::zero(),
            scale: Binary32::one(),
            tint: Rgba::default(),
            texture_index: 0,
        }
    }
}

} // verus!
