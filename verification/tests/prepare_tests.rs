use mesh2d_material::material::ColorBits;
use mesh2d_material::material::CustomMaterial;
use mesh2d_material::material::TextureHandle;
use mesh2d_material::prepare::BindGroupEntry;
use mesh2d_material::prepare::BindingResource;
use mesh2d_material::prepare::BindingType;
use mesh2d_material::prepare::PipelineError;
use mesh2d_material::prepare::PrepareError;
use mesh2d_material::prepare::SAMPLER_BINDING;
use mesh2d_material::prepare::ShaderBindings;
use mesh2d_material::prepare::TEXTURE_BINDING;
use mesh2d_material::prepare::TextureResolution;
use mesh2d_material::prepare::UNIFORM_BINDING;
use mesh2d_material::prepare::bind_group_layout;
use mesh2d_material::prepare::check_shader_bindings;
use mesh2d_material::prepare::prepare_asset;
use mesh2d_material::uniform::TEXTURE_PRESENT;
use mesh2d_material::uniform::pack;

fn textured_material() -> CustomMaterial {
    CustomMaterial {
        color: ColorBits {
            r: 1.0f32.to_bits(),
            g: 1.0f32.to_bits(),
            b: 1.0f32.to_bits(),
            a: 1.0f32.to_bits(),
        },
        texture: Some(TextureHandle { id: 42 }),
    }
}

#[test]
fn pending_texture_returns_retry_with_snapshot() {
    let m = textured_material();
    let r = prepare_asset(m, TextureResolution::Pending, 16);
    assert_eq!(r, Err(PrepareError::RetryNextUpdate { material: m }));
}

#[test]
fn resolved_texture_prepares_resource() {
    let m = textured_material();
    let g = prepare_asset(m, TextureResolution::Resolved { view: 5, sampler: 9 }, 16).unwrap();
    assert_eq!(g.block.bytes, pack(&m, 16).bytes);
    assert_ne!(g.flags & TEXTURE_PRESENT, 0);
    assert_eq!(g.texture, m.texture);
    assert_eq!(
        g.bind_group,
        vec![
            BindGroupEntry { binding: 0, resource: BindingResource::UniformBuffer },
            BindGroupEntry { binding: 1, resource: BindingResource::TextureView { view: 5 } },
            BindGroupEntry { binding: 2, resource: BindingResource::Sampler { sampler: 9 } },
        ]
    );
}

#[test]
fn untextured_material_prepares_with_fallback_texture() {
    // A material without a texture resolves to the host's fallback view and
    // sampler; its flags word has no texture bit.
    let m = CustomMaterial {
        color: ColorBits { r: 0, g: 0, b: 0, a: 1.0f32.to_bits() },
        texture: None,
    };
    let g = prepare_asset(m, TextureResolution::Resolved { view: 0, sampler: 0 }, 16).unwrap();
    assert_eq!(g.flags & TEXTURE_PRESENT, 0);
    assert_eq!(g.texture, None);
}

#[test]
fn bind_group_layout_declares_three_fragment_slots() {
    let entries = bind_group_layout(16);
    assert_eq!(entries.len(), 3);
    assert_eq!(entries[0].binding, UNIFORM_BINDING);
    assert_eq!(entries[0].ty, BindingType::UniformBuffer { min_binding_size: 32 });
    assert_eq!(entries[1].binding, TEXTURE_BINDING);
    assert_eq!(entries[1].ty, BindingType::Texture2dFloat);
    assert_eq!(entries[2].binding, SAMPLER_BINDING);
    assert_eq!(entries[2].ty, BindingType::FilteringSampler);
}

#[test]
fn matching_shader_bindings_pass() {
    let s = ShaderBindings { uniform_block: 0, texture: 1, sampler: 2 };
    assert_eq!(check_shader_bindings(&s), Ok(()));
}

#[test]
fn mismatched_shader_bindings_are_a_configuration_error() {
    let swapped = ShaderBindings { uniform_block: 0, texture: 2, sampler: 1 };
    assert_eq!(check_shader_bindings(&swapped), Err(PipelineError::BindingLayoutMismatch));
    let shifted = ShaderBindings { uniform_block: 1, texture: 2, sampler: 3 };
    assert_eq!(check_shader_bindings(&shifted), Err(PipelineError::BindingLayoutMismatch));
}
