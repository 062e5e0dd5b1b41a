use byd::color::{debug_magenta, default_color, opaque_black};
use byd::material::{
    BasicMaterial, CustomMaterial, LineMaterial, Material, MaterialKind, PipelineFamily,
    TextureMaterial,
};
use byd::math::Vector4;

#[test]
fn a_basic_material_draws_its_own_colour_with_the_placeholder() {
    let red = Vector4::new(1.0f32.to_bits(), 0, 0, 1.0f32.to_bits());
    let material = BasicMaterial::new(red);
    assert_eq!(material.color, red);
    let kind = material.kind();
    assert_eq!(kind, MaterialKind::Basic(material));
    assert_eq!(kind.family(), PipelineFamily::Simple);
    assert_eq!(kind.uniform_color(), red);
    assert_eq!(kind.texture(), Some(0));
    assert!(!kind.requires_texture());
}

#[test]
fn a_textured_material_draws_black_with_its_texture() {
    let material = TextureMaterial::new(7);
    assert_eq!(material.texture_id, 7);
    let kind = material.kind();
    assert_eq!(kind.family(), PipelineFamily::Simple);
    assert_eq!(kind.uniform_color(), opaque_black());
    assert_eq!(kind.texture(), Some(7));
    assert!(kind.requires_texture());
}

#[test]
fn a_line_material_draws_magenta_without_a_texture() {
    let kind = LineMaterial::new().kind();
    assert_eq!(kind, MaterialKind::Line(LineMaterial {}));
    assert_eq!(kind.family(), PipelineFamily::Line);
    assert_eq!(kind.uniform_color(), debug_magenta());
    assert_eq!(kind.texture(), None);
    assert!(!kind.requires_texture());
}

#[test]
fn a_custom_material_draws_with_its_program() {
    let material = CustomMaterial::new(3);
    assert_eq!(material.program_id, 3);
    let kind = material.kind();
    assert_eq!(kind.family(), PipelineFamily::Custom(3));
    assert_eq!(kind.uniform_color(), opaque_black());
    assert_eq!(kind.texture(), None);
    assert_eq!(kind.kind(), kind);
}

#[test]
fn the_fallback_is_a_flat_orange() {
    let orange = Vector4::new(
        1.0f32.to_bits(),
        0.25f32.to_bits(),
        0.1f32.to_bits(),
        1.0f32.to_bits(),
    );
    assert_eq!(default_color(), orange);
    assert_eq!(MaterialKind::fallback(), MaterialKind::Basic(BasicMaterial::new(orange)));
}

#[test]
fn the_fixed_colours_are_the_bits_of_their_numbers() {
    let one = 1.0f32.to_bits();
    assert_eq!(opaque_black(), Vector4::new(0, 0, 0, one));
    assert_eq!(debug_magenta(), Vector4::new(one, 0, one, one));
    assert_eq!(f32::from_bits(byd::math::ONE), 1.0);
    assert_eq!(f32::from_bits(byd::math::MINUS_ONE), -1.0);
    assert_eq!(f32::from_bits(byd::math::QUARTER), 0.25);
    assert_eq!(f32::from_bits(byd::math::TENTH), 0.1);
    assert_eq!(f32::from_bits(byd::math::ZERO), 0.0);
}
