//! The per-cycle preparation state machine.
//!
//! Each material instance moves from `Unprepared` to `Prepared` once its
//! texture reference (if any) has resolved to a device texture. A texture
//! that has not resolved yet is not a failure: preparation answers
//! [`PrepareError::RetryNextUpdate`], hands the snapshot back, and the caller
//! re-attempts on the next cycle. The [`MaterialRegistry`] tracks that state
//! per material and keeps every prepared resource consistent with the
//! material it was built from.

use vstd::prelude::*;

use crate::material::CustomMaterial;
use crate::material::TextureHandle;
use crate::uniform::BLOCK_BODY_SIZE;
use crate::uniform::CustomMaterialUniformData;
use crate::uniform::PackedUniformBlock;
use crate::uniform::TEXTURE_PRESENT;
use crate::uniform::flags_spec;
use crate::uniform::pack;
use crate::uniform::packed_block;
use crate::uniform::padded_block_size;
use crate::uniform::padded_size;
use crate::uniform::uniform_spec;

verus! {

/// Binding index of the uniform block, as the fragment shader declares it.
pub const UNIFORM_BINDING: u32 = 0;

/// Binding index of the 2d texture, as the fragment shader declares it.
pub const TEXTURE_BINDING: u32 = 1;

/// Binding index of the sampler, as the fragment shader declares it.
pub const SAMPLER_BINDING: u32 = 2;

/// What the host's texture resolver answered, this cycle, for a material's
/// texture reference: the resolved view and sampler (device handles, named
/// by id), or not ready yet. A material without a texture resolves to the
/// host's fallback texture, so the host always answers `Resolved` for it.
#[derive(Clone, Copy, PartialEq, Eq, Debug)]
pub enum TextureResolution {
    Resolved { view: u64, sampler: u64 },
    Pending,
}

/// The deferred-readiness signal of preparation. Not a terminal failure: the
/// snapshot is handed back so the caller can re-attempt on the next cycle.
#[derive(Clone, Copy, PartialEq, Eq, Debug)]
pub enum PrepareError {
    RetryNextUpdate { material: CustomMaterial },
}

/// The resource bound at one binding index of the material's bind set.
#[derive(Clone, Copy, PartialEq, Eq, Debug)]
pub enum BindingResource {
    /// The material's own uniform buffer, bound whole.
    UniformBuffer,
    /// A device texture view, named by id.
    TextureView { view: u64 },
    /// A device sampler, named by id.
    Sampler { sampler: u64 },
}

/// One entry of the bind set handed to the device: a binding index and the
/// resource bound there.
#[derive(Clone, Copy, PartialEq, Eq, Debug)]
pub struct BindGroupEntry {
    pub binding: u32,
    pub resource: BindingResource,
}

/// The kind of resource a bind-set layout slot declares.
#[derive(Clone, Copy, PartialEq, Eq, Debug)]
pub enum BindingType {
    /// A uniform buffer of at least `min_binding_size` bytes, without
    /// dynamic offsets.
    UniformBuffer { min_binding_size: usize },
    /// A non-multisampled, filterable, float-sampled 2d texture.
    Texture2dFloat,
    /// A filtering sampler.
    FilteringSampler,
}

/// The shader stages a bind-set layout slot is visible to.
#[derive(Clone, Copy, PartialEq, Eq, Debug)]
pub enum ShaderVisibility {
    Fragment,
}

/// One slot of the bind-set layout handed to the host pipeline builder.
#[derive(Clone, Copy, PartialEq, Eq, Debug)]
pub struct BindGroupLayoutEntry {
    pub binding: u32,
    pub visibility: ShaderVisibility,
    pub ty: BindingType,
}

/// The bind-set layout this material requires of the pipeline: the uniform
/// block at binding 0 (fragment-visible, at least one padded block large),
/// the texture at binding 1, the sampler at binding 2.
pub open spec fn bind_group_layout_spec(align: int) -> Seq<BindGroupLayoutEntry> {
    seq![
        BindGroupLayoutEntry {
            binding: UNIFORM_BINDING,
            visibility: ShaderVisibility::Fragment,
            ty: BindingType::UniformBuffer { min_binding_size: padded_size(align) as usize },
        },
        BindGroupLayoutEntry {
            binding: TEXTURE_BINDING,
            visibility: ShaderVisibility::Fragment,
            ty: BindingType::Texture2dFloat,
        },
        BindGroupLayoutEntry {
            binding: SAMPLER_BINDING,
            visibility: ShaderVisibility::Fragment,
            ty: BindingType::FilteringSampler,
        },
    ]
}

/// Builds the bind-set layout for a device whose minimum uniform-buffer
/// alignment is `align`.
pub fn bind_group_layout(align: usize) -> (r: Vec<BindGroupLayoutEntry>)
    requires
        1 <= align,
        align <= usize::MAX - BLOCK_BODY_SIZE,
    ensures
        r@ == bind_group_layout_spec(align as int),
{
    let min = padded_block_size(align);
    let mut v: Vec<BindGroupLayoutEntry> = Vec::new();
    v.push(
        BindGroupLayoutEntry {
            binding: UNIFORM_BINDING,
            visibility: ShaderVisibility::Fragment,
            ty: BindingType::UniformBuffer { min_binding_size: min },
        },
    );
    v.push(
        BindGroupLayoutEntry {
            binding: TEXTURE_BINDING,
            visibility: ShaderVisibility::Fragment,
            ty: BindingType::Texture2dFloat,
        },
    );
    v.push(
        BindGroupLayoutEntry {
            binding: SAMPLER_BINDING,
            visibility: ShaderVisibility::Fragment,
            ty: BindingType::FilteringSampler,
        },
    );
    proof {
        assert(v@ =~= bind_group_layout_spec(align as int));
    }
    v
}

/// The binding indices a shader module declares for this material's bind
/// set.
#[derive(Clone, Copy, PartialEq, Eq, Debug)]
pub struct ShaderBindings {
    pub uniform_block: u32,
    pub texture: u32,
    pub sampler: u32,
}

/// Configuration errors surfaced at pipeline-build time. Fatal, never
/// retried.
#[derive(Clone, Copy, PartialEq, Eq, Structural, Debug)]
pub enum PipelineError {
    /// The shader's declared binding indices disagree with the bind-set
    /// layout this module produces.
    BindingLayoutMismatch,
}

/// Checks a shader's declared binding indices against the bind-set layout
/// this module produces: uniform block at 0, texture at 1, sampler at 2.
/// Any disagreement is a configuration error, not recoverable at run time.
pub fn check_shader_bindings(s: &ShaderBindings) -> (r: Result<(), PipelineError>)
    ensures
        r is Ok <==> (s.uniform_block == UNIFORM_BINDING && s.texture == TEXTURE_BINDING
            && s.sampler == SAMPLER_BINDING),
        r is Err ==> r == Err::<(), PipelineError>(PipelineError::BindingLayoutMismatch),
{
    if s.uniform_block == UNIFORM_BINDING && s.texture == TEXTURE_BINDING && s.sampler
        == SAMPLER_BINDING {
        Ok(())
    } else {
        Err(PipelineError::BindingLayoutMismatch)
    }
}

/// The bind set of a prepared material: its uniform buffer at binding 0, the
/// resolved texture view at binding 1, the resolved sampler at binding 2.
pub open spec fn bind_group_spec(view: u64, sampler: u64) -> Seq<BindGroupEntry> {
    seq![
        BindGroupEntry { binding: UNIFORM_BINDING, resource: BindingResource::UniformBuffer },
        BindGroupEntry { binding: TEXTURE_BINDING, resource: (BindingResource::TextureView {
            view,
        }) },
        BindGroupEntry { binding: SAMPLER_BINDING, resource: (BindingResource::Sampler {
            sampler,
        }) },
    ]
}

/// The device-ready form of a material: the packed uniform block (the exact
/// contents of the device buffer), the bind set built over it, the flag
/// bits, and the texture reference it was prepared with. The block, the
/// buffer and the bind set are owned by this resource alone; nothing is
/// shared across materials.
#[derive(Clone, PartialEq, Eq, Debug)]
pub struct GpuCustomMaterial {
    pub block: PackedUniformBlock,
    pub bind_group: Vec<BindGroupEntry>,
    pub flags: u32,
    pub texture: Option<TextureHandle>,
}

/// A prepared resource is consistent with the material it was built from:
/// its block is the material's packed block, its flags are the material's
/// packed flags, and it records the material's texture reference.
pub open spec fn prepared_consistent(g: GpuCustomMaterial, m: CustomMaterial, align: int) -> bool {
    &&& g.block.bytes@ == packed_block(uniform_spec(m), align)
    &&& g.flags == flags_spec(m.texture)
    &&& g.texture == m.texture
}

/// One preparation attempt over an extracted material snapshot.
///
/// `resolution` is the host resolver's answer for the material's texture
/// reference this cycle. If it is still pending, the attempt returns the
/// retry signal with the snapshot unchanged — the single designed retry path.
/// Once resolved, the material's uniform block is packed at alignment
/// `align` and the bind set is assembled over the resolved view and sampler.
pub fn prepare_asset(material: CustomMaterial, resolution: TextureResolution, align: usize) -> (r:
    Result<GpuCustomMaterial, PrepareError>)
    requires
        1 <= align,
        align <= usize::MAX - BLOCK_BODY_SIZE,
    ensures
        r is Ok <==> resolution is Resolved,
        match r {
            Ok(g) => {
                &&& resolution matches TextureResolution::Resolved { view, sampler } && g
                    .bind_group@ == bind_group_spec(view, sampler)
                &&& prepared_consistent(g, material, align as int)
                &&& (g.flags & TEXTURE_PRESENT != 0) <==> material.texture is Some
            },
            Err(e) => {
                &&& e == (PrepareError::RetryNextUpdate { material })
                &&& resolution is Pending
            },
        },
{
    let (view, sampler) = match resolution {
        TextureResolution::Resolved { view, sampler } => (view, sampler),
        TextureResolution::Pending => {
            return Err(PrepareError::RetryNextUpdate { material });
        },
    };
    proof {
        crate::uniform::lemma_texture_flag(material);
    }
    let block = pack(&material, align);
    let flags: u32 = if material.texture.is_some() {
        TEXTURE_PRESENT
    } else {
        crate::uniform::FLAGS_NONE
    };
    let mut bind_group: Vec<BindGroupEntry> = Vec::new();
    bind_group.push(
        BindGroupEntry { binding: UNIFORM_BINDING, resource: BindingResource::UniformBuffer },
    );
    bind_group.push(
        BindGroupEntry { binding: TEXTURE_BINDING, resource: BindingResource::TextureView { view } },
    );
    bind_group.push(
        BindGroupEntry { binding: SAMPLER_BINDING, resource: BindingResource::Sampler { sampler } },
    );
    proof {
        assert(bind_group@ =~= bind_group_spec(view, sampler));
    }
    Ok(GpuCustomMaterial { block, bind_group, flags, texture: material.texture })
}

} // verus!
