use mesh2d_material::material::ColorBits;
use mesh2d_material::material::CustomMaterial;
use mesh2d_material::material::TextureHandle;

#[test]
fn default_material_is_untextured_magenta() {
    let m = CustomMaterial::default();
    assert_eq!(m.texture, None);
    assert_eq!(m.color.r, 1.0f32.to_bits());
    assert_eq!(m.color.g, 0.0f32.to_bits());
    assert_eq!(m.color.b, 1.0f32.to_bits());
    assert_eq!(m.color.a, 1.0f32.to_bits());
}

#[test]
fn material_from_color_has_no_texture() {
    let color = ColorBits {
        r: 0.5f32.to_bits(),
        g: 0.25f32.to_bits(),
        b: 0.125f32.to_bits(),
        a: 1.0f32.to_bits(),
    };
    let m = CustomMaterial::from(color);
    assert_eq!(m.color, color);
    assert_eq!(m.texture, None);
}

#[test]
fn material_from_texture_is_white() {
    let m = CustomMaterial::from(TextureHandle { id: 4 });
    assert_eq!(m.texture, Some(TextureHandle { id: 4 }));
    let one = 1.0f32.to_bits();
    assert_eq!(m.color, ColorBits { r: one, g: one, b: one, a: one });
}

#[test]
fn extracted_snapshot_equals_source() {
    let m = CustomMaterial::from(TextureHandle { id: 4 });
    let snapshot = m.extract_asset();
    assert_eq!(snapshot, m);
}
