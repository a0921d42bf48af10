use tela::icons::{IconName, MaterialIconFontProvider};

#[test]
fn icons_map_to_material_code_points() {
    assert_eq!(MaterialIconFontProvider::codepoint(IconName::Add), '\u{e145}');
    assert_eq!(MaterialIconFontProvider::codepoint(IconName::Image), '\u{e3f4}');
    assert_eq!(MaterialIconFontProvider::codepoint(IconName::Maximize), '\u{e92c}');
    assert_eq!(
        MaterialIconFontProvider::codepoint(IconName::Delete),
        MaterialIconFontProvider::codepoint(IconName::Trash)
    );
    assert_eq!(MaterialIconFontProvider::glyph_text(IconName::Close), "\u{e5cd}");
}
