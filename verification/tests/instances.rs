use khzeb::binary32::Binary32;
use khzeb::color::Rgba;
use khzeb::instance::{
    BatchInstance, VertexAttribute, VertexFormat, VertexStepMode, INSTANCE_SIZE,
};
use khzeb::metadata::{BatchMetadata, BatchMetadataFlags, METADATA_SIZE, SNAP_INSTANCES_TO_GRID};
use khzeb::vector::{IVec2, Vec2};

fn float(value: f32) -> Binary32 {
    Binary32::from_bits(value.to_bits())
}

#[test]
fn colour_packs_red_on_top() {
    assert_eq!(u32::from(Rgba::new(0x12, 0x34, 0x56, 0x78)), 0x1234_5678);
    assert_eq!(u32::from(Rgba::new(255, 0, 255, 255)), 0xFF00_FFFF);
    assert_eq!(u32::from(Rgba::new(0, 0, 0, 0)), 0);
    assert_eq!(u32::from(Rgba::default()), 0xFFFF_FFFF);
}

#[test]
fn colour_bytes_are_the_packed_word_in_little_endian() {
    let colour = Rgba::new(0x12, 0x34, 0x56, 0x78);
    let mut bytes = vec![0xee];
    colour.write_to(&mut bytes);
    assert_eq!(bytes, vec![0xee, 0x78, 0x56, 0x34, 0x12]);
    assert_eq!(&bytes[1..], &u32::from(colour).to_le_bytes());
}

#[test]
fn colours_compare_by_channels() {
    assert_eq!(Rgba::new(1, 2, 3, 4), Rgba::new(1, 2, 3, 4));
    assert_ne!(Rgba::new(1, 2, 3, 4), Rgba::new(4, 3, 2, 1));
    assert_eq!(Rgba::default(), Rgba::new(255, 255, 255, 255));
}

#[test]
fn binary32_keeps_its_bits() {
    for bits in [0u32, 1, 0x3f80_0000, 0x7fc0_0000, 0x8000_0000, u32::MAX] {
        assert_eq!(Binary32::from_bits(bits).to_bits(), bits);
    }
    assert_eq!(Binary32::one().to_bits(), 1.0f32.to_bits());
    assert_eq!(Binary32::zero().to_bits(), 0.0f32.to_bits());
}

#[test]
fn truncation_rounds_toward_zero() {
    assert_eq!(float(0.0).to_i32(), 0);
    assert_eq!(float(-0.0).to_i32(), 0);
    assert_eq!(float(0.999_999).to_i32(), 0);
    assert_eq!(float(-0.999_999).to_i32(), 0);
    assert_eq!(float(1.0).to_i32(), 1);
    assert_eq!(float(-1.0).to_i32(), -1);
    assert_eq!(float(1.5).to_i32(), 1);
    assert_eq!(float(-1.5).to_i32(), -1);
    assert_eq!(float(2.999).to_i32(), 2);
    assert_eq!(float(-2.999).to_i32(), -2);
    assert_eq!(float(19.0).to_i32(), 19);
    assert_eq!(float(8_388_607.5).to_i32(), 8_388_607);
    assert_eq!(float(16_777_216.0).to_i32(), 16_777_216);
    assert_eq!(float(-123_456_789.0).to_i32(), -123_456_792);
}

#[test]
fn truncation_saturates() {
    assert_eq!(float(2_147_483_520.0).to_i32(), 2_147_483_520);
    assert_eq!(float(2_147_483_648.0).to_i32(), i32::MAX);
    assert_eq!(float(-2_147_483_648.0).to_i32(), i32::MIN);
    assert_eq!(float(-2_147_483_904.0).to_i32(), i32::MIN);
    assert_eq!(float(1.0e30).to_i32(), i32::MAX);
    assert_eq!(float(-1.0e30).to_i32(), i32::MIN);
    assert_eq!(float(f32::MAX).to_i32(), i32::MAX);
    assert_eq!(float(f32::MIN).to_i32(), i32::MIN);
    assert_eq!(float(f32::INFINITY).to_i32(), i32::MAX);
    assert_eq!(float(f32::NEG_INFINITY).to_i32(), i32::MIN);
}

#[test]
fn truncation_of_nan_and_tiny_numbers_is_zero() {
    assert_eq!(float(f32::NAN).to_i32(), 0);
    assert_eq!(Binary32::from_bits(0x7f80_0001).to_i32(), 0);
    assert_eq!(Binary32::from_bits(0xffff_ffff).to_i32(), 0);
    assert_eq!(float(f32::MIN_POSITIVE).to_i32(), 0);
    assert_eq!(Binary32::from_bits(1).to_i32(), 0);
    assert_eq!(Binary32::from_bits(0x8000_0001).to_i32(), 0);
}

#[test]
fn truncation_agrees_with_the_cast() {
    let mut bits = 0u32;
    loop {
        let value = f32::from_bits(bits);
        assert_eq!(Binary32::from_bits(bits).to_i32(), value as i32, "bits {:#x}", bits);
        let probe = bits ^ 0x0055_5555;
        assert_eq!(Binary32::from_bits(probe).to_i32(), f32::from_bits(probe) as i32);
        match bits.checked_add(0x0000_ffef) {
            Some(next) => bits = next,
            None => break,
        }
    }
}

#[test]
fn vector_truncates_by_component() {
    let v = Vec2::new(float(3.7), float(-3.7));
    assert_eq!(v.as_ivec2(), IVec2::new(3, -3));
    assert_eq!(Vec2::zero().as_ivec2(), IVec2::zero());
    assert_eq!(Vec2::zero(), Vec2::new(float(0.0), float(0.0)));
    assert_eq!(IVec2::zero(), IVec2 { x: 0, y: 0 });
}

#[test]
fn default_instance_takes_twenty_bytes() {
    let bytes = BatchInstance::new().to_bytes();
    assert_eq!(bytes.len(), INSTANCE_SIZE);
    assert_eq!(
        bytes,
        vec![
            0, 0, 0, 0, // x
            0, 0, 0, 0, // y
            0x00, 0x00, 0x80, 0x3f, // scale 1.0
            0xff, 0xff, 0xff, 0xff, // tint
            0, 0, 0, 0, // texture
        ]
    );
    assert_eq!(BatchInstance::new(), BatchInstance::default());
}

#[test]
fn zeroed_instance_is_all_zero_bytes() {
    assert_eq!(BatchInstance::zeroed().to_bytes(), vec![0u8; INSTANCE_SIZE]);
    assert_ne!(BatchInstance::zeroed(), BatchInstance::default());
}

#[test]
fn instance_bytes_follow_the_attribute_order() {
    let instance = BatchInstance::new()
        .with_position_i32(IVec2::new(0x0102_0304, -2))
        .with_scale(float(-2.5))
        .with_tint(Rgba::new(0x11, 0x22, 0x33, 0x44))
        .with_texture_idx(0xa0b0_c0d0);
    let mut expected = Vec::new();
    expected.extend_from_slice(&0x0102_0304i32.to_le_bytes());
    expected.extend_from_slice(&(-2i32).to_le_bytes());
    expected.extend_from_slice(&(-2.5f32).to_le_bytes());
    expected.extend_from_slice(&[0x44, 0x33, 0x22, 0x11]);
    expected.extend_from_slice(&0xa0b0_c0d0u32.to_le_bytes());
    assert_eq!(instance.to_bytes(), expected);
    assert_eq!(
        expected,
        vec![
            0x04, 0x03, 0x02, 0x01, 0xfe, 0xff, 0xff, 0xff, 0x00, 0x00, 0x20, 0xc0, 0x44, 0x33,
            0x22, 0x11, 0xd0, 0xc0, 0xb0, 0xa0
        ]
    );
}

#[test]
fn instance_positions_cover_the_whole_range() {
    for (x, y) in [(i32::MIN, i32::MAX), (-1, 1), (0, 0), (i32::MAX, i32::MIN)] {
        let bytes = BatchInstance::new().with_position_i32(IVec2::new(x, y)).to_bytes();
        assert_eq!(&bytes[0..4], &x.to_le_bytes());
        assert_eq!(&bytes[4..8], &y.to_le_bytes());
    }
}

#[test]
fn write_to_appends() {
    let mut out = vec![1u8, 2, 3];
    let instance = BatchInstance::new().with_texture_idx(9);
    instance.write_to(&mut out);
    assert_eq!(out.len(), 3 + INSTANCE_SIZE);
    assert_eq!(&out[..3], &[1, 2, 3]);
    assert_eq!(&out[3..], &instance.to_bytes()[..]);
}

#[test]
fn builders_change_one_field() {
    let base = BatchInstance::new()
        .with_position_i32(IVec2::new(5, 6))
        .with_scale(float(3.0))
        .with_tint(Rgba::new(1, 2, 3, 4))
        .with_texture_idx(7);
    let base_bytes = base.to_bytes();

    let moved = base.with_position_i32(IVec2::new(-5, -6)).to_bytes();
    assert_eq!(&moved[8..], &base_bytes[8..]);
    assert_eq!(&moved[..8], &[0xfb, 0xff, 0xff, 0xff, 0xfa, 0xff, 0xff, 0xff]);

    let scaled = base.with_scale(float(0.5)).to_bytes();
    assert_eq!(&scaled[..8], &base_bytes[..8]);
    assert_eq!(&scaled[8..12], &0.5f32.to_le_bytes());
    assert_eq!(&scaled[12..], &base_bytes[12..]);

    let tinted = base.with_tint(Rgba::new(9, 8, 7, 6)).to_bytes();
    assert_eq!(&tinted[..12], &base_bytes[..12]);
    assert_eq!(&tinted[12..16], &[6, 7, 8, 9]);
    assert_eq!(&tinted[16..], &base_bytes[16..]);

    let textured = base.with_texture_idx(0x0100).to_bytes();
    assert_eq!(&textured[..16], &base_bytes[..16]);
    assert_eq!(&textured[16..], &[0, 1, 0, 0]);
}

#[test]
fn float_position_is_stored_truncated() {
    let instance = BatchInstance::new().with_position_f32(Vec2::new(float(1.0), float(1.0)));
    assert_eq!(instance, BatchInstance::new().with_position_i32(IVec2::new(1, 1)));

    let instance = BatchInstance::new().with_position_f32(Vec2::new(float(-7.9), float(1.0e12)));
    assert_eq!(instance, BatchInstance::new().with_position_i32(IVec2::new(-7, i32::MAX)));

    let instance =
        BatchInstance::new().with_position_f32(Vec2::new(float(f32::NAN), float(-0.25)));
    assert_eq!(instance, BatchInstance::new());
}

#[test]
fn shorthand_constructors_start_from_the_default() {
    let by_int = BatchInstance::new_i32(IVec2::new(3, 4), float(2.0));
    assert_eq!(
        by_int,
        BatchInstance::new().with_position_i32(IVec2::new(3, 4)).with_scale(float(2.0))
    );
    let by_float = BatchInstance::new_f32(Vec2::new(float(3.9), float(4.1)), float(2.0));
    assert_eq!(by_float, by_int);
}

#[test]
fn vertex_layout_steps_once_per_instance() {
    let layout = BatchInstance::vertex_buffer_layout();
    assert_eq!(layout.array_stride, 20);
    assert_eq!(layout.array_stride, INSTANCE_SIZE as u64);
    assert_eq!(layout.step_mode, VertexStepMode::Instance);
    assert_eq!(
        layout.attributes,
        vec![
            VertexAttribute { format: VertexFormat::Sint32x2, offset: 0, shader_location: 0 },
            VertexAttribute { format: VertexFormat::Float32, offset: 8, shader_location: 1 },
            VertexAttribute { format: VertexFormat::Uint32, offset: 12, shader_location: 2 },
            VertexAttribute { format: VertexFormat::Uint32, offset: 16, shader_location: 3 },
        ]
    );
    assert_eq!(layout.attributes, BatchInstance::attributes());
}

#[test]
fn vertex_attributes_tile_the_instance() {
    let mut next = 0u64;
    for (location, attribute) in BatchInstance::attributes().iter().enumerate() {
        assert_eq!(attribute.shader_location, location as u32);
        assert_eq!(attribute.offset, next);
        next += attribute.format.size();
    }
    assert_eq!(next, INSTANCE_SIZE as u64);
    assert_eq!(VertexFormat::Sint32x2.size(), 8);
    assert_eq!(VertexFormat::Float32.size(), 4);
    assert_eq!(VertexFormat::Uint32.size(), 4);
}

#[test]
fn metadata_takes_twenty_bytes() {
    let metadata = BatchMetadata {
        flags: BatchMetadataFlags::from_bits_truncate(SNAP_INSTANCES_TO_GRID),
        origin: Vec2::new(float(1.0), float(-1.0)),
        scale: float(4.0),
        zorder: 3,
    };
    let bytes = metadata.to_bytes();
    assert_eq!(bytes.len(), METADATA_SIZE);
    assert_eq!(
        bytes,
        vec![
            1, 0, 0, 0, 0x00, 0x00, 0x80, 0x3f, 0x00, 0x00, 0x80, 0xbf, 0x00, 0x00, 0x80, 0x40, 3,
            0, 0, 0
        ]
    );
}

#[test]
fn metadata_compares_by_value() {
    let a = BatchMetadata {
        flags: BatchMetadataFlags::empty(),
        origin: Vec2::zero(),
        scale: float(1.0),
        zorder: 0,
    };
    let b = a;
    assert_eq!(a, b);
    assert_ne!(a, BatchMetadata { zorder: 1, ..a });
    assert_ne!(a, BatchMetadata { scale: float(2.0), ..a });
    assert_ne!(a, BatchMetadata { origin: Vec2::new(float(0.0), float(1.0)), ..a });
    assert_ne!(a, BatchMetadata { flags: BatchMetadataFlags::from_bits_truncate(1), ..a });
}

#[test]
fn metadata_flags_keep_known_bits_only() {
    assert_eq!(BatchMetadataFlags::empty().bits(), 0);
    assert_eq!(BatchMetadataFlags::from_bits_truncate(1).bits(), 1);
    assert_eq!(BatchMetadataFlags::from_bits_truncate(0xffff_fffe).bits(), 0);
    assert_eq!(BatchMetadataFlags::from_bits_truncate(7).bits(), SNAP_INSTANCES_TO_GRID);

    let snap = BatchMetadataFlags::from_bits_truncate(SNAP_INSTANCES_TO_GRID);
    let none = BatchMetadataFlags::empty();
    assert!(snap.contains(snap));
    assert!(snap.contains(none));
    assert!(!none.contains(snap));
    assert!(none.contains(none));
    assert_eq!(none.union(snap), snap);
    assert_eq!(none.union(none), none);
}
