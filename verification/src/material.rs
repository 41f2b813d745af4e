//! The material description: a base color and an optional texture reference.

use vstd::prelude::*;

verus! {

/// Bit pattern of the 32-bit value 1.0 in the device's color encoding.
pub const COLOR_ONE: u32 = 0x3F80_0000;

/// Bit pattern of the 32-bit value 0.0 in the device's color encoding.
pub const COLOR_ZERO: u32 = 0;

/// The four components of an RGBA color, each held as the raw bit pattern of
/// the 32-bit value the shader reads. Holding the bits keeps the components
/// exact: packing and unpacking never rounds or converts them.
#[derive(Clone, Copy, PartialEq, Eq, Debug)]
pub struct ColorBits {
    pub r: u32,
    pub g: u32,
    pub b: u32,
    pub a: u32,
}

impl ColorBits {
    /// Opaque white: all four components 1.0.
    pub fn white() -> (r: ColorBits)
        ensures
            r == (ColorBits { r: COLOR_ONE, g: COLOR_ONE, b: COLOR_ONE, a: COLOR_ONE }),
    {
        ColorBits { r: COLOR_ONE, g: COLOR_ONE, b: COLOR_ONE, a: COLOR_ONE }
    }

    /// Opaque magenta: red and blue 1.0, green 0.0, alpha 1.0.
    pub fn magenta() -> (r: ColorBits)
        ensures
            r == (ColorBits { r: COLOR_ONE, g: COLOR_ZERO, b: COLOR_ONE, a: COLOR_ONE }),
    {
        ColorBits { r: COLOR_ONE, g: COLOR_ZERO, b: COLOR_ONE, a: COLOR_ONE }
    }
}

/// An opaque handle naming a texture asset owned by the host engine. The
/// handle only identifies the asset; whether it has resolved to a device
/// texture is the host's knowledge, reported per cycle to [`crate::prepare`].
#[derive(Clone, Copy, PartialEq, Eq, Debug)]
pub struct TextureHandle {
    pub id: u64,
}

/// A 2d material: a base color, and optionally a texture the color is
/// multiplied with. Materials are plain values; each frame the render side
/// works on an immutable snapshot taken by [`CustomMaterial::extract_asset`].
#[derive(Clone, Copy, PartialEq, Eq, Debug)]
pub struct CustomMaterial {
    pub color: ColorBits,
    pub texture: Option<TextureHandle>,
}

/// The material every new [`CustomMaterial`] starts from: opaque magenta,
/// no texture.
pub open spec fn default_material() -> CustomMaterial {
    CustomMaterial {
        color: ColorBits { r: COLOR_ONE, g: COLOR_ZERO, b: COLOR_ONE, a: COLOR_ONE },
        texture: None,
    }
}

impl Default for CustomMaterial {
    /// The default material: opaque magenta, no texture.
    fn default() -> (r: Self)
        ensures
            r == default_material(),
    {
        CustomMaterial { color: ColorBits::magenta(), texture: None }
    }
}

impl From<ColorBits> for CustomMaterial {
    /// An untextured material of the given color.
    fn from(color: ColorBits) -> (r: Self) {
        CustomMaterial { color, texture: None }
    }
}

impl vstd::std_specs::convert::FromSpecImpl<ColorBits> for CustomMaterial {
    open spec fn obeys_from_spec() -> bool {
        true
    }

    open spec fn from_spec(color: ColorBits) -> CustomMaterial {
        CustomMaterial { color, texture: None }
    }
}

impl From<TextureHandle> for CustomMaterial {
    /// A textured material; the color is left white so the texture shows
    /// unmodulated.
    fn from(texture: TextureHandle) -> (r: Self) {
        CustomMaterial { color: ColorBits::white(), texture: Some(texture) }
    }
}

impl vstd::std_specs::convert::FromSpecImpl<TextureHandle> for CustomMaterial {
    open spec fn obeys_from_spec() -> bool {
        true
    }

    open spec fn from_spec(texture: TextureHandle) -> CustomMaterial {
        CustomMaterial {
            color: ColorBits { r: COLOR_ONE, g: COLOR_ONE, b: COLOR_ONE, a: COLOR_ONE },
            texture: Some(texture),
        }
    }
}

impl CustomMaterial {
    /// The immutable per-frame snapshot handed from the extract stage to the
    /// prepare stage; the source material may change afterwards without
    /// affecting the snapshot.
    pub fn extract_asset(&self) -> (r: Self)
        ensures
            r == *self,
    {
        *self
    }
}

} // verus!
