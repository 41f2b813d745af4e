//! Packing a material into the uniform block the device consumes.
//!
//! The block's layout is fixed: 16 bytes of color (four 32-bit words, little
//! endian, in R, G, B, A order) followed by a 4-byte flags word — 20 bytes of
//! payload, padded with zero bytes up to the device's minimum uniform-buffer
//! alignment. Padding is a hard contract of the consuming device, not an
//! optimization; the block is built whole, never partially.

use vstd::prelude::*;

use crate::material::ColorBits;
use crate::material::CustomMaterial;
use crate::material::TextureHandle;

verus! {

/// Flag bit set in the uniform block's flags word when the material
/// references a texture. Must match the bit the fragment shader tests.
pub const TEXTURE_PRESENT: u32 = 1;

/// The flags word of a material with no texture: no bit set.
pub const FLAGS_NONE: u32 = 0;

/// Diagnostic default for a flags word that was never computed. Only ever a
/// sentinel: in normal operation it is never written to the device.
pub const FLAGS_UNINITIALIZED: u32 = 0xFFFF;

/// Byte size of the block's payload: 16 bytes of color and 4 of flags.
pub const BLOCK_BODY_SIZE: usize = 20;

/// The flags word packed for a material with the given texture reference.
pub open spec fn flags_spec(texture: Option<TextureHandle>) -> u32 {
    if texture is Some {
        TEXTURE_PRESENT
    } else {
        FLAGS_NONE
    }
}

/// The CPU-side image of the uniform block before byte packing: the color
/// and the flags word.
#[derive(Clone, Copy, PartialEq, Eq, Debug)]
pub struct CustomMaterialUniformData {
    pub color: ColorBits,
    pub flags: u32,
}

/// The uniform data packed for a material.
pub open spec fn uniform_spec(m: CustomMaterial) -> CustomMaterialUniformData {
    CustomMaterialUniformData { color: m.color, flags: flags_spec(m.texture) }
}

/// The uniform data for a material: its color unchanged, and the flags word
/// with [`TEXTURE_PRESENT`] set exactly when the material has a texture.
pub fn uniform_data_for(m: &CustomMaterial) -> (r: CustomMaterialUniformData)
    ensures
        r == uniform_spec(*m),
        (r.flags & TEXTURE_PRESENT != 0) <==> m.texture is Some,
{
    proof {
        lemma_texture_flag(*m);
    }
    let flags: u32 = if m.texture.is_some() {
        TEXTURE_PRESENT
    } else {
        FLAGS_NONE
    };
    CustomMaterialUniformData { color: m.color, flags }
}

/// The [`TEXTURE_PRESENT`] bit is set in a material's packed flags word
/// exactly when the material references a texture.
pub proof fn lemma_texture_flag(m: CustomMaterial)
    ensures
        (flags_spec(m.texture) & TEXTURE_PRESENT != 0) <==> m.texture is Some,
{
    if m.texture is Some {
        assert(1u32 & 1u32 != 0u32) by (bit_vector);
    } else {
        assert(0u32 & 1u32 == 0u32) by (bit_vector);
    }
}

/// The four little-endian bytes of a 32-bit word, least significant first.
pub open spec fn le_bytes(x: u32) -> Seq<u8> {
    seq![
        (x & 0xff) as u8,
        ((x >> 8) & 0xff) as u8,
        ((x >> 16) & 0xff) as u8,
        ((x >> 24) & 0xff) as u8,
    ]
}

/// The 32-bit word whose little-endian bytes are `b0`, `b1`, `b2`, `b3`.
pub open spec fn word_of_le(b0: u8, b1: u8, b2: u8, b3: u8) -> u32 {
    (b0 as u32) | ((b1 as u32) << 8) | ((b2 as u32) << 16) | ((b3 as u32) << 24)
}

/// Reading a word's four little-endian bytes back gives the word: the byte
/// encoding loses nothing.
pub proof fn lemma_le_round_trip(x: u32)
    ensures
        word_of_le(le_bytes(x)[0], le_bytes(x)[1], le_bytes(x)[2], le_bytes(x)[3]) == x,
{
    assert(((x & 0xff) as u8 as u32) | ((((x >> 8) & 0xff) as u8 as u32) << 8) | ((((x >> 16)
        & 0xff) as u8 as u32) << 16) | ((((x >> 24) & 0xff) as u8 as u32) << 24) == x)
        by (bit_vector);
}

/// Appends the four little-endian bytes of `x`.
fn push_le_bytes(out: &mut Vec<u8>, x: u32)
    ensures
        final(out)@ == old(out)@ + le_bytes(x),
{
    proof {
        assert(x & 0xff < 256 && (x >> 8) & 0xff < 256 && (x >> 16) & 0xff < 256 && (x >> 24)
            & 0xff < 256) by (bit_vector);
    }
    out.push((x & 0xff) as u8);
    out.push(((x >> 8) & 0xff) as u8);
    out.push(((x >> 16) & 0xff) as u8);
    out.push(((x >> 24) & 0xff) as u8);
    proof {
        assert(out@ =~= old(out)@ + le_bytes(x));
    }
}

/// The 32-bit word read back from four little-endian bytes.
pub fn word_from_le(b0: u8, b1: u8, b2: u8, b3: u8) -> (r: u32)
    ensures
        r == word_of_le(b0, b1, b2, b3),
{
    (b0 as u32) | ((b1 as u32) << 8) | ((b2 as u32) << 16) | ((b3 as u32) << 24)
}

/// The block's 20 payload bytes: the four color words in R, G, B, A order,
/// then the flags word, each little-endian.
pub open spec fn block_body(u: CustomMaterialUniformData) -> Seq<u8> {
    le_bytes(u.color.r) + le_bytes(u.color.g) + le_bytes(u.color.b) + le_bytes(u.color.a)
        + le_bytes(u.flags)
}

/// The payload size rounded up to the next multiple of `align`.
pub open spec fn padded_size(align: int) -> int {
    ((BLOCK_BODY_SIZE + align - 1) / align) * align
}

/// Rounding the payload size up to a multiple of `align` yields at least the
/// payload size, less than one whole `align` more, and an exact multiple.
pub proof fn lemma_padded_size(align: int)
    requires
        1 <= align,
    ensures
        BLOCK_BODY_SIZE <= padded_size(align) < BLOCK_BODY_SIZE + align,
        padded_size(align) % align == 0,
{
    let x = BLOCK_BODY_SIZE + align - 1;
    let q = x / align;
    vstd::arithmetic::div_mod::lemma_fundamental_div_mod(x, align);
    vstd::arithmetic::div_mod::lemma_mod_division_less_than_divisor(x, align);
    assert(q * align == x - x % align);
    vstd::arithmetic::div_mod::lemma_mod_multiples_basic(q, align);
}

/// The padded block packed for uniform data `u` at alignment `align`: the
/// payload followed by zero padding up to [`padded_size`].
pub open spec fn packed_block(u: CustomMaterialUniformData, align: int) -> Seq<u8> {
    block_body(u) + Seq::new((padded_size(align) - BLOCK_BODY_SIZE) as nat, |i: int| 0u8)
}

/// The packed, padded uniform block: exactly the bytes uploaded to the
/// device buffer.
#[derive(Clone, PartialEq, Eq, Debug)]
pub struct PackedUniformBlock {
    pub bytes: Vec<u8>,
}

/// The payload size rounded up to a whole number of `align`-byte units: the
/// size of the block uploaded for a device whose minimum uniform-buffer
/// alignment is `align`.
pub fn padded_block_size(align: usize) -> (r: usize)
    requires
        1 <= align,
        align <= usize::MAX - BLOCK_BODY_SIZE,
    ensures
        r == padded_size(align as int),
        BLOCK_BODY_SIZE <= r,
        r % align == 0,
{
    proof {
        lemma_padded_size(align as int);
    }
    (BLOCK_BODY_SIZE + align - 1) / align * align
}

/// Packs a material into its uniform block: the color words and the flags
/// word, little-endian, padded with zeros to the device's minimum
/// uniform-buffer alignment `align`. Packing is pure and total over
/// well-formed input, and all-or-nothing: the result is always the whole
/// padded block.
pub fn pack(m: &CustomMaterial, align: usize) -> (r: PackedUniformBlock)
    requires
        1 <= align,
        align <= usize::MAX - BLOCK_BODY_SIZE,
    ensures
        r.bytes@ == packed_block(uniform_spec(*m), align as int),
        r.bytes@.len() == padded_size(align as int),
        (r.bytes@.len() as int) % (align as int) == 0,
        BLOCK_BODY_SIZE <= r.bytes@.len(),
{
    let u = uniform_data_for(m);
    let ghost target = packed_block(uniform_spec(*m), align as int);
    let mut bytes: Vec<u8> = Vec::new();
    push_le_bytes(&mut bytes, u.color.r);
    push_le_bytes(&mut bytes, u.color.g);
    push_le_bytes(&mut bytes, u.color.b);
    push_le_bytes(&mut bytes, u.color.a);
    push_le_bytes(&mut bytes, u.flags);
    let padded = padded_block_size(align);
    proof {
        lemma_padded_size(align as int);
        assert(bytes@ =~= block_body(u));
        assert(bytes@ =~= target.take(BLOCK_BODY_SIZE as int));
    }
    while bytes.len() < padded
        invariant
            BLOCK_BODY_SIZE <= bytes@.len() <= padded,
            padded == padded_size(align as int),
            target.len() == padded,
            target == packed_block(uniform_spec(*m), align as int),
            bytes@ =~= target.take(bytes@.len() as int),
        decreases padded - bytes@.len(),
    {
        proof {
            assert(target[bytes@.len() as int] == 0u8);
        }
        bytes.push(0u8);
        proof {
            assert(bytes@ =~= target.take(bytes@.len() as int));
        }
    }
    proof {
        assert(bytes@ =~= target);
    }
    PackedUniformBlock { bytes }
}

/// Packing is idempotent: packing the same material twice, at the same
/// alignment, yields byte-identical blocks.
pub proof fn lemma_pack_deterministic(m1: CustomMaterial, m2: CustomMaterial, align: int)
    requires
        m1 == m2,
    ensures
        packed_block(uniform_spec(m1), align) == packed_block(uniform_spec(m2), align),
{
}

/// The color read back from the first 16 bytes of a packed block: four
/// little-endian words in R, G, B, A order.
pub open spec fn decoded_color(b: Seq<u8>) -> ColorBits {
    ColorBits {
        r: word_of_le(b[0], b[1], b[2], b[3]),
        g: word_of_le(b[4], b[5], b[6], b[7]),
        b: word_of_le(b[8], b[9], b[10], b[11]),
        a: word_of_le(b[12], b[13], b[14], b[15]),
    }
}

/// Decodes the first 16 bytes of a packed block as the four color words.
pub fn unpack_color(block: &PackedUniformBlock) -> (r: ColorBits)
    requires
        block.bytes@.len() >= 16,
    ensures
        r == decoded_color(block.bytes@),
{
    ColorBits {
        r: word_from_le(block.bytes[0], block.bytes[1], block.bytes[2], block.bytes[3]),
        g: word_from_le(block.bytes[4], block.bytes[5], block.bytes[6], block.bytes[7]),
        b: word_from_le(block.bytes[8], block.bytes[9], block.bytes[10], block.bytes[11]),
        a: word_from_le(block.bytes[12], block.bytes[13], block.bytes[14], block.bytes[15]),
    }
}

/// The flags word read back from bytes 16 to 19 of a packed block.
pub open spec fn decoded_flags(b: Seq<u8>) -> u32 {
    word_of_le(b[16], b[17], b[18], b[19])
}

/// Decodes the flags word of a packed block.
pub fn unpack_flags(block: &PackedUniformBlock) -> (r: u32)
    requires
        block.bytes@.len() >= BLOCK_BODY_SIZE,
    ensures
        r == decoded_flags(block.bytes@),
{
    word_from_le(block.bytes[16], block.bytes[17], block.bytes[18], block.bytes[19])
}

/// The [`TEXTURE_PRESENT`] bit is set in a packed block's flags word exactly
/// when the material the block was packed from references a texture.
pub proof fn lemma_packed_flag(m: CustomMaterial, align: int)
    requires
        1 <= align,
    ensures
        (decoded_flags(packed_block(uniform_spec(m), align)) & TEXTURE_PRESENT != 0)
            <==> m.texture is Some,
{
    lemma_padded_size(align);
    let u = uniform_spec(m);
    let b = packed_block(u, align);
    assert(b[16] == le_bytes(u.flags)[0] && b[17] == le_bytes(u.flags)[1] && b[18] == le_bytes(
        u.flags,
    )[2] && b[19] == le_bytes(u.flags)[3]);
    lemma_le_round_trip(u.flags);
    lemma_texture_flag(m);
}

/// Round trip: decoding a packed block's first 16 bytes as four 32-bit words
/// reproduces the packed color's components exactly — no lossy transform is
/// applied anywhere between material and block.
pub proof fn lemma_color_round_trip(u: CustomMaterialUniformData, align: int)
    requires
        1 <= align,
    ensures
        decoded_color(packed_block(u, align)) == u.color,
{
    lemma_padded_size(align);
    let b = packed_block(u, align);
    assert(b[0] == le_bytes(u.color.r)[0] && b[1] == le_bytes(u.color.r)[1] && b[2] == le_bytes(
        u.color.r,
    )[2] && b[3] == le_bytes(u.color.r)[3]);
    assert(b[4] == le_bytes(u.color.g)[0] && b[5] == le_bytes(u.color.g)[1] && b[6] == le_bytes(
        u.color.g,
    )[2] && b[7] == le_bytes(u.color.g)[3]);
    assert(b[8] == le_bytes(u.color.b)[0] && b[9] == le_bytes(u.color.b)[1] && b[10] == le_bytes(
        u.color.b,
    )[2] && b[11] == le_bytes(u.color.b)[3]);
    assert(b[12] == le_bytes(u.color.a)[0] && b[13] == le_bytes(u.color.a)[1] && b[14] == le_bytes(
        u.color.a,
    )[2] && b[15] == le_bytes(u.color.a)[3]);
    lemma_le_round_trip(u.color.r);
    lemma_le_round_trip(u.color.g);
    lemma_le_round_trip(u.color.b);
    lemma_le_round_trip(u.color.a);
}

} // verus!
