use yeti_bigfile::export::{
    align_to_multiple_of_four, extrude_way_indices, remap_pixels, texture_size_matches, MaterialKind,
    MaterialShaderTypeIDs, PixelRemap, TextureChannelIdentifier, WayExportStrategy,
};
use yeti_bigfile::metadata::YKey;

fn ids() -> MaterialShaderTypeIDs {
    MaterialShaderTypeIDs {
        alphatest: vec!["0x00000010".to_string()],
        alphablend_emissive: vec!["0x00000011".to_string()],
        alphablend: vec!["0x00000012".to_string()],
        invcoloralpha: vec!["0x00000013".to_string()],
        coloralpha: vec!["0x00000014".to_string()],
        skybox: vec!["0x000000AB".to_string()],
        submarine: vec!["0x00000016".to_string()],
        standard: vec!["0x00000017".to_string()],
    }
}

#[test]
fn material_key_lookup_matches_material_or_shader() {
    let ids = ids();
    assert!(ids.has_alphatest_key(&YKey(0x10), &YKey(0x99)));
    assert!(ids.has_alphatest_key(&YKey(0x99), &YKey(0x10)));
    assert!(!ids.has_alphatest_key(&YKey(0x99), &YKey(0x98)));
    assert!(ids.has_skybox(&YKey(0xAB), &YKey(0)));
    assert!(!ids.has_skybox(&YKey(0xab0), &YKey(0)));
    assert!(ids.has_standard(&YKey(0x17), &YKey(0)));
    assert!(ids.has_submarine(&YKey(0), &YKey(0x16)));
    assert!(ids.has_coloralpha(&YKey(0x14), &YKey(0)));
    assert!(ids.has_invcoloralpha(&YKey(0x13), &YKey(0)));
    assert!(ids.has_alphablend(&YKey(0x12), &YKey(0)));
    assert!(ids.has_alphablend_emissive_key(&YKey(0x11), &YKey(0)));
}

#[test]
fn material_kind_takes_first_list_in_order() {
    let mut ids = ids();
    assert_eq!(ids.material_kind(&YKey(0x10), &YKey(0)), MaterialKind::AlphaTest);
    assert_eq!(ids.material_kind(&YKey(0x99), &YKey(0xAB)), MaterialKind::Skybox);
    assert_eq!(ids.material_kind(&YKey(0x99), &YKey(0x98)), MaterialKind::Standard);
    ids.standard.push("0x00000010".to_string());
    assert_eq!(ids.material_kind(&YKey(0x10), &YKey(0)), MaterialKind::Standard);
}

#[test]
fn way_strategy_flags() {
    assert!(!WayExportStrategy::Off.should_export_triangles());
    assert!(!WayExportStrategy::Off.should_export_extrude());
    assert!(WayExportStrategy::Triangulate.should_export_triangles());
    assert!(!WayExportStrategy::Triangulate.should_export_extrude());
    assert!(WayExportStrategy::Extrude.should_export_extrude());
    assert!(WayExportStrategy::Both.should_export_triangles());
    assert!(WayExportStrategy::Both.should_export_extrude());
}

#[test]
fn channel_transform() {
    let px = [10u8, 20, 30, 40];
    assert_eq!(TextureChannelIdentifier::Channel(2).transform_value(0, &px), 30);
    assert_eq!(TextureChannelIdentifier::Clear(255).transform_value(0, &px), 255);
}

#[test]
fn align_four() {
    assert_eq!(align_to_multiple_of_four(0), 0);
    assert_eq!(align_to_multiple_of_four(1), 4);
    assert_eq!(align_to_multiple_of_four(4), 4);
    assert_eq!(align_to_multiple_of_four(13), 16);
}

#[test]
fn extrude_triangle() {
    let mut ind = vec![0u32, 1, 2];
    extrude_way_indices(&mut ind, 3);
    let expected: Vec<u32> = vec![
        0, 1, 2, // ground
        6, 8, 7, // top, turned over
        3, 6, 5, 3, 4, 6, // side at point 0
        4, 7, 6, 4, 5, 7, // side at point 1
        5, 8, 7, 5, 6, 8, // side at point 2
    ];
    assert_eq!(ind, expected);
}

#[test]
fn extrude_drops_partial_triangle_from_top() {
    let mut ind = vec![0u32, 1, 2, 3];
    extrude_way_indices(&mut ind, 0);
    assert_eq!(ind, vec![0, 1, 2, 3, 0, 2, 1]);
}

#[test]
fn extruded_sides_address_raised_copies() {
    let mut ind = vec![0u32, 1, 2, 0, 2, 3];
    extrude_way_indices(&mut ind, 4);
    assert_eq!(ind.len(), 6 + 6 + 24);
    for k in 6..12 {
        assert!(ind[k] >= 8 && ind[k] < 12);
    }
    for k in 12..36 {
        assert!(ind[k] >= 4 && ind[k] < 12);
    }
}

#[test]
fn pixel_remaps() {
    let data = vec![10u8, 20, 30, 40, 1, 2, 3, 4, 99];
    assert_eq!(remap_pixels(&data, PixelRemap::Keep), data);
    assert_eq!(remap_pixels(&data, PixelRemap::NormalMap), vec![20, 40, 30, 255, 2, 4, 3, 255]);
    assert_eq!(remap_pixels(&data, PixelRemap::ChannelToAlpha(0)), vec![10, 20, 30, 10, 1, 2, 3, 1]);
    assert_eq!(
        remap_pixels(&data, PixelRemap::ChannelToAlphaInvertAndClear(1)),
        vec![255, 255, 255, 235, 255, 255, 255, 253]
    );
    let m = PixelRemap::ChannelModify(
        TextureChannelIdentifier::Channel(2),
        TextureChannelIdentifier::Clear(7),
        TextureChannelIdentifier::Channel(0),
        TextureChannelIdentifier::Clear(255),
    );
    assert_eq!(remap_pixels(&data, m), vec![30, 7, 10, 255, 3, 7, 1, 255]);
    assert!(remap_pixels(&vec![1, 2, 3], PixelRemap::NormalMap).is_empty());
}

#[test]
fn texture_sizes() {
    assert!(texture_size_matches(16 * 8 * 4, 16, 8));
    assert!(!texture_size_matches(16 * 8 * 4 - 1, 16, 8));
    assert!(texture_size_matches(0, 0, 300));
    assert!(texture_size_matches(65535 * 65535 * 4, 65535, 65535));
}
