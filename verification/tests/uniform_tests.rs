use mesh2d_material::material::ColorBits;
use mesh2d_material::material::CustomMaterial;
use mesh2d_material::material::TextureHandle;
use mesh2d_material::uniform::BLOCK_BODY_SIZE;
use mesh2d_material::uniform::FLAGS_UNINITIALIZED;
use mesh2d_material::uniform::TEXTURE_PRESENT;
use mesh2d_material::uniform::pack;
use mesh2d_material::uniform::padded_block_size;
use mesh2d_material::uniform::uniform_data_for;
use mesh2d_material::uniform::unpack_color;
use mesh2d_material::uniform::unpack_flags;

fn color_of_f32(r: f32, g: f32, b: f32, a: f32) -> ColorBits {
    ColorBits { r: r.to_bits(), g: g.to_bits(), b: b.to_bits(), a: a.to_bits() }
}

fn flags_word(block_bytes: &[u8]) -> u32 {
    u32::from_le_bytes([block_bytes[16], block_bytes[17], block_bytes[18], block_bytes[19]])
}

#[test]
fn packed_block_scenario() {
    // Material {color = (1, 0, 1, 1), texture = None} at the default 16-byte
    // alignment: bytes(1.0, 0.0, 1.0, 1.0) ++ bytes(uint32 0), padded from 20
    // to 32 bytes with 12 trailing zero bytes.
    let m = CustomMaterial { color: color_of_f32(1.0, 0.0, 1.0, 1.0), texture: None };
    let block = pack(&m, 16);
    assert_eq!(block.bytes.len(), 32);
    let mut expected = Vec::new();
    expected.extend_from_slice(&1.0f32.to_le_bytes());
    expected.extend_from_slice(&0.0f32.to_le_bytes());
    expected.extend_from_slice(&1.0f32.to_le_bytes());
    expected.extend_from_slice(&1.0f32.to_le_bytes());
    expected.extend_from_slice(&0u32.to_le_bytes());
    expected.extend_from_slice(&[0u8; 12]);
    assert_eq!(block.bytes, expected);
}

#[test]
fn pack_is_idempotent() {
    let m = CustomMaterial {
        color: color_of_f32(0.25, 0.5, 0.75, 1.0),
        texture: Some(TextureHandle { id: 11 }),
    };
    let first = pack(&m, 16);
    let second = pack(&m, 16);
    assert_eq!(first.bytes, second.bytes);
}

#[test]
fn texture_present_flag_iff_texture_set() {
    let with = CustomMaterial {
        color: color_of_f32(1.0, 1.0, 1.0, 1.0),
        texture: Some(TextureHandle { id: 3 }),
    };
    let without = CustomMaterial { color: color_of_f32(1.0, 1.0, 1.0, 1.0), texture: None };
    assert_ne!(uniform_data_for(&with).flags & TEXTURE_PRESENT, 0);
    assert_eq!(uniform_data_for(&without).flags & TEXTURE_PRESENT, 0);
    assert_ne!(flags_word(&pack(&with, 16).bytes) & TEXTURE_PRESENT, 0);
    assert_eq!(flags_word(&pack(&without, 16).bytes) & TEXTURE_PRESENT, 0);
    assert_eq!(unpack_flags(&pack(&with, 16)), TEXTURE_PRESENT);
    assert_eq!(unpack_flags(&pack(&without, 16)), 0);
}

#[test]
fn uninitialized_sentinel_is_never_packed() {
    // The diagnostic sentinel is not a flags word either packing can produce.
    let with = CustomMaterial {
        color: color_of_f32(0.0, 0.0, 0.0, 0.0),
        texture: Some(TextureHandle { id: 1 }),
    };
    let without = CustomMaterial { color: color_of_f32(0.0, 0.0, 0.0, 0.0), texture: None };
    assert_ne!(flags_word(&pack(&with, 16).bytes), FLAGS_UNINITIALIZED);
    assert_ne!(flags_word(&pack(&without, 16).bytes), FLAGS_UNINITIALIZED);
}

#[test]
fn color_round_trip_is_bit_identical() {
    // Decoding the first 16 bytes as four 32-bit values reproduces the base
    // color exactly, including values a lossy transform would disturb.
    let samples = [
        (1.0f32, 0.0f32, 1.0f32, 1.0f32),
        (0.1, 0.2, 0.3, 0.4),
        (f32::MIN_POSITIVE, -0.0, f32::MAX, 1.5e-42),
    ];
    for &(r, g, b, a) in samples.iter() {
        let color = color_of_f32(r, g, b, a);
        let m = CustomMaterial { color, texture: None };
        let block = pack(&m, 16);
        let decoded = unpack_color(&block);
        assert_eq!(decoded, color);
        assert_eq!(f32::from_bits(decoded.r).to_bits(), r.to_bits());
        assert_eq!(f32::from_bits(decoded.g).to_bits(), g.to_bits());
        assert_eq!(f32::from_bits(decoded.b).to_bits(), b.to_bits());
        assert_eq!(f32::from_bits(decoded.a).to_bits(), a.to_bits());
    }
}

#[test]
fn padding_follows_device_alignment() {
    assert_eq!(padded_block_size(1), BLOCK_BODY_SIZE);
    assert_eq!(padded_block_size(4), 20);
    assert_eq!(padded_block_size(16), 32);
    assert_eq!(padded_block_size(64), 64);
    assert_eq!(padded_block_size(256), 256);
    let m = CustomMaterial { color: color_of_f32(1.0, 0.0, 1.0, 1.0), texture: None };
    assert_eq!(pack(&m, 256).bytes.len(), 256);
    assert_eq!(pack(&m, 1).bytes.len(), 20);
}
