//! The controlled font catalog: stable resource names, display data and the embedded bytes of
//! each font. Font parsing, metrics and rendering stay with each backend.
//!
//! The font files themselves are linked by the embedding build, which hands them in as
//! [`FontAssets`]; the catalog and the exact name resolution live here.
use vstd::prelude::*;

use crate::text::text_equal;

verus! {

/// Stable resource name of the regular body font.
pub const UI_FONT_NAME: &'static str = "body";
/// Stable resource name of the medium body font.
pub const UI_FONT_MEDIUM_NAME: &'static str = "body-medium";
/// Stable resource name of the Material Symbols Rounded icon font.
pub const ICON_FONT_NAME: &'static str = "icon";
/// CSS family used when a name resolves to no controlled font.
pub const DEFAULT_CSS_FAMILY: &'static str = "Tela UI";

/// The embedded font files of a build.
#[derive(Clone, Copy, Debug)]
pub struct FontAssets<'a> {
    /// Noto Sans SC Regular subset.
    pub body: &'a [u8],
    /// Noto Sans SC Medium subset.
    pub body_medium: &'a [u8],
    /// Material Symbols Rounded subset.
    pub icon: &'a [u8],
}

/// One enumerable controlled font resource.
#[derive(Clone, Copy, Debug, PartialEq, Eq)]
pub struct FontResource<'a> {
    /// Stable token used by text style references.
    pub text_style: &'static str,
    /// Name shown by font pickers.
    pub display_name: &'static str,
    /// Font family used by CSS and platform diagnostics.
    pub family: &'static str,
    /// OpenType weight.
    pub weight: u16,
    /// Embedded font bytes.
    pub bytes: &'a [u8],
}

/// The regular body font entry.
pub open spec fn body_resource<'a>(assets: FontAssets<'a>) -> FontResource<'a> {
    FontResource {
        text_style: UI_FONT_NAME,
        display_name: "Noto Sans SC Regular",
        family: DEFAULT_CSS_FAMILY,
        weight: 400,
        bytes: assets.body,
    }
}

/// The medium body font entry.
pub open spec fn body_medium_resource<'a>(assets: FontAssets<'a>) -> FontResource<'a> {
    FontResource {
        text_style: UI_FONT_MEDIUM_NAME,
        display_name: "Noto Sans SC Medium",
        family: DEFAULT_CSS_FAMILY,
        weight: 500,
        bytes: assets.body_medium,
    }
}

/// The icon font entry.
pub open spec fn icon_resource<'a>(assets: FontAssets<'a>) -> FontResource<'a> {
    FontResource {
        text_style: ICON_FONT_NAME,
        display_name: "Material Symbols Rounded",
        family: "Tela Icons",
        weight: 400,
        bytes: assets.icon,
    }
}

/// The catalog of a build, in its fixed order.
pub open spec fn font_catalog<'a>(assets: FontAssets<'a>) -> Seq<FontResource<'a>> {
    seq![body_resource(assets), body_medium_resource(assets), icon_resource(assets)]
}

/// The catalog entry whose style token is exactly `name`, if any.
pub open spec fn catalog_lookup<'a>(assets: FontAssets<'a>, name: Seq<char>) -> Option<FontResource<'a>> {
    if name == UI_FONT_NAME@ {
        Some(body_resource(assets))
    } else if name == UI_FONT_MEDIUM_NAME@ {
        Some(body_medium_resource(assets))
    } else if name == ICON_FONT_NAME@ {
        Some(icon_resource(assets))
    } else {
        None
    }
}

/// Resolution is exact: a name resolves only to the catalog entry whose style token it is, and
/// every catalog entry is reached by its own token.
pub proof fn lemma_resolution_is_exact<'a>(assets: FontAssets<'a>, name: Seq<char>)
    ensures
        catalog_lookup(assets, name) matches Some(resource) ==> resource.text_style@ == name
            && font_catalog(assets).contains(resource),
        catalog_lookup(assets, name) is None ==> forall|i: int|
            0 <= i < font_catalog(assets).len() ==> #[trigger] font_catalog(assets)[i].text_style@
                != name,
        forall|i: int|
            0 <= i < font_catalog(assets).len() ==> catalog_lookup(
                assets,
                #[trigger] font_catalog(assets)[i].text_style@,
            ) == Some(font_catalog(assets)[i]),
{
    reveal_strlit("body");
    reveal_strlit("body-medium");
    reveal_strlit("icon");
    assert(UI_FONT_NAME@[0] != ICON_FONT_NAME@[0]);
    assert(UI_FONT_NAME@.len() != UI_FONT_MEDIUM_NAME@.len());
    assert(UI_FONT_MEDIUM_NAME@.len() != ICON_FONT_NAME@.len());
    if let Some(resource) = catalog_lookup(assets, name) {
        assert(font_catalog(assets)[0] == body_resource(assets));
        assert(font_catalog(assets)[1] == body_medium_resource(assets));
        assert(font_catalog(assets)[2] == icon_resource(assets));
    }
}

/// The font catalog of the build.
pub fn available_fonts<'a>(assets: &FontAssets<'a>) -> (fonts: Vec<FontResource<'a>>)
    ensures
        fonts@ == font_catalog(*assets),
{
    let fonts = vec![
        FontResource {
            text_style: UI_FONT_NAME,
            display_name: "Noto Sans SC Regular",
            family: DEFAULT_CSS_FAMILY,
            weight: 400,
            bytes: assets.body,
        },
        FontResource {
            text_style: UI_FONT_MEDIUM_NAME,
            display_name: "Noto Sans SC Medium",
            family: DEFAULT_CSS_FAMILY,
            weight: 500,
            bytes: assets.body_medium,
        },
        FontResource {
            text_style: ICON_FONT_NAME,
            display_name: "Material Symbols Rounded",
            family: "Tela Icons",
            weight: 400,
            bytes: assets.icon,
        },
    ];
    assert(fonts@ =~= font_catalog(*assets));
    fonts
}

/// Resolves a style token exactly; an unknown token resolves to no font.
pub fn resource_for<'a>(assets: &FontAssets<'a>, name: &str) -> (resource: Option<FontResource<'a>>)
    ensures
        resource == catalog_lookup(*assets, name@),
{
    proof {
        reveal_strlit("body");
        reveal_strlit("body-medium");
        reveal_strlit("icon");
    }
    let fonts = available_fonts(assets);
    let mut i: usize = 0;
    while i < fonts.len()
        invariant
            fonts@ == font_catalog(*assets),
            i <= fonts@.len(),
            forall|j: int| 0 <= j < i ==> fonts@[j].text_style@ != name@,
        decreases fonts@.len() - i,
    {
        if text_equal(fonts[i].text_style, name) {
            return Some(fonts[i]);
        }
        i = i + 1;
    }
    None
}

/// The embedded bytes of the font named exactly `name`, if any.
pub fn bytes_for<'a>(assets: &FontAssets<'a>, name: &str) -> (bytes: Option<&'a [u8]>)
    ensures
        bytes == (match catalog_lookup(*assets, name@) {
            Some(resource) => Some(resource.bytes),
            None => None,
        }),
{
    match resource_for(assets, name) {
        Some(resource) => Some(resource.bytes),
        None => None,
    }
}

/// The CSS family of the font named `name`; an unknown name uses `DEFAULT_CSS_FAMILY`.
pub fn css_family_for(name: &str) -> (family: &'static str)
    ensures
        family@ == (if name@ == ICON_FONT_NAME@ { "Tela Icons"@ } else { DEFAULT_CSS_FAMILY@ }),
{
    let assets = FontAssets { body: &[], body_medium: &[], icon: &[] };
    proof {
        reveal_strlit("body");
        reveal_strlit("body-medium");
        reveal_strlit("icon");
    }
    assert(UI_FONT_NAME@[0] != ICON_FONT_NAME@[0]);
    assert(UI_FONT_MEDIUM_NAME@.len() != ICON_FONT_NAME@.len());
    let resource = resource_for(&assets, name);
    match resource {
        Some(resource) => resource.family,
        None => DEFAULT_CSS_FAMILY,
    }
}

/// The cached font face a text style draws with.
#[derive(Clone, Copy, Debug, PartialEq, Eq, Structural)]
pub enum FontFaceId {
    /// Regular body face.
    Body,
    /// Medium body face.
    BodyMedium,
    /// Icon face.
    Icon,
}

/// The face of a style token: its own face for the registered tokens; an unknown token falls
/// back to the body face.
pub open spec fn face_of(text_style: Seq<char>) -> FontFaceId {
    if text_style == UI_FONT_MEDIUM_NAME@ {
        FontFaceId::BodyMedium
    } else if text_style == ICON_FONT_NAME@ {
        FontFaceId::Icon
    } else {
        FontFaceId::Body
    }
}

/// Selects the face a text style draws with.
pub fn font_face_id(text_style: &str) -> (face: FontFaceId)
    ensures
        face == face_of(text_style@),
{
    if text_equal(text_style, UI_FONT_MEDIUM_NAME) {
        FontFaceId::BodyMedium
    } else if text_equal(text_style, ICON_FONT_NAME) {
        FontFaceId::Icon
    } else {
        FontFaceId::Body
    }
}

} // verus!
