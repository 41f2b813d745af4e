//! A small, verified material data contract for a 2d mesh pipeline.
//!
//! The crate covers the CPU side of the contract between a material
//! description and the GPU resources built from it:
//!
//! - [`layout`]: interleaved vertex buffer layouts (per-attribute byte
//!   offsets and the overall stride);
//! - [`material`]: the material description itself (a base color and an
//!   optional texture reference);
//! - [`uniform`]: packing a material into the fixed-layout, alignment-padded
//!   uniform block that is uploaded to the device;
//! - [`prepare`]: one preparation attempt over a material snapshot, the
//!   bind-set layout, and the shader binding-index check, with the retry path
//!   for textures that have not resolved yet;
//! - [`registry`]: the per-material state machine driving those attempts
//!   cycle by cycle.

pub mod layout;
pub mod material;
pub mod prepare;
pub mod registry;
pub mod uniform;
