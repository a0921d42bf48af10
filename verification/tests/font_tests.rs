use tela::fonts::{
    font_face_id, FontFaceId, available_fonts, bytes_for, css_family_for, resource_for, FontAssets, ICON_FONT_NAME,
    UI_FONT_MEDIUM_NAME, UI_FONT_NAME,
};

const UI_FONT_BYTES: &[u8] = b"regular-subset";
const UI_FONT_MEDIUM_BYTES: &[u8] = b"medium-subset";
const ICON_FONT_BYTES: &[u8] = b"icon-subset";

fn assets() -> FontAssets<'static> {
    FontAssets { body: UI_FONT_BYTES, body_medium: UI_FONT_MEDIUM_BYTES, icon: ICON_FONT_BYTES }
}

#[test]
fn catalog_is_enumerable_and_resolution_is_exact() {
    let assets = assets();
    assert_eq!(bytes_for(&assets, ICON_FONT_NAME), Some(ICON_FONT_BYTES));
    assert_eq!(bytes_for(&assets, UI_FONT_NAME), Some(UI_FONT_BYTES));
    assert_eq!(bytes_for(&assets, UI_FONT_MEDIUM_NAME), Some(UI_FONT_MEDIUM_BYTES));
    assert_eq!(bytes_for(&assets, "unknown"), None);
    assert_eq!(available_fonts(&assets).len(), 3);
    assert_eq!(available_fonts(&assets)[0].weight, 400);
    assert_eq!(available_fonts(&assets)[1].weight, 500);
}

#[test]
fn resources_carry_their_display_data() {
    let assets = assets();
    let icon = resource_for(&assets, "icon").expect("icon font");
    assert_eq!(icon.display_name, "Material Symbols Rounded");
    assert_eq!(icon.family, "Tela Icons");
    assert_eq!(resource_for(&assets, "body").expect("body font").display_name, "Noto Sans SC Regular");
    assert_eq!(resource_for(&assets, "Body"), None);
    assert_eq!(resource_for(&assets, "body "), None);
}

#[test]
fn css_family_falls_back_to_the_ui_family() {
    assert_eq!(css_family_for("icon"), "Tela Icons");
    assert_eq!(css_family_for("body"), "Tela UI");
    assert_eq!(css_family_for("body-medium"), "Tela UI");
    assert_eq!(css_family_for("missing"), "Tela UI");
}

#[test]
fn each_registered_text_style_selects_its_own_face() {
    assert_eq!(font_face_id("body"), FontFaceId::Body);
    assert_eq!(font_face_id("body-medium"), FontFaceId::BodyMedium);
    assert_eq!(font_face_id("icon"), FontFaceId::Icon);
    assert_eq!(font_face_id("unknown-product-style"), FontFaceId::Body);
}
