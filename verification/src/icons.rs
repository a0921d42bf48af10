//! Material Symbols Rounded icon font resources: the private code point table that turns a
//! semantic icon into its glyph in the controlled icon font.
use vstd::prelude::*;

use crate::text::string_push;

verus! {

/// Standard semantic icons.
#[derive(Clone, Copy, Debug, PartialEq, Eq, Structural)]
pub enum IconName {
    /// Add an item.
    Add,
    /// Delete an item.
    Delete,
    /// Edit an item.
    Edit,
    /// Copy.
    Copy,
    /// Move to another place.
    Move,
    /// Restore a removed item.
    Restore,
    /// Mark as favorite.
    Favorite,
    /// Tag an item.
    Tag,
    /// Undo the last action.
    Undo,
    /// Search.
    Search,
    /// A closed folder.
    Folder,
    /// An open folder.
    FolderOpen,
    /// A document.
    Document,
    /// An image.
    Image,
    /// An archive.
    Archive,
    /// All files.
    AllFiles,
    /// The trash.
    Trash,
    /// List layout.
    List,
    /// Grid layout.
    Grid,
    /// Sort.
    Sort,
    /// Filter.
    Filter,
    /// Disclosure chevron.
    ChevronRight,
    /// Navigate back.
    ArrowBack,
    /// Open a menu.
    Menu,
    /// More actions.
    More,
    /// Close.
    Close,
    /// Minimize a window.
    Minimize,
    /// Maximize a window.
    Maximize,
}

/// The Material Symbols Rounded code point of a semantic icon.
pub open spec fn material_glyph(name: IconName) -> char {
    match name {
        IconName::Add => '\u{e145}',
        IconName::Delete => '\u{e92e}',
        IconName::Edit => '\u{f097}',
        IconName::Copy => '\u{e14d}',
        IconName::Move => '\u{e9a1}',
        IconName::Restore => '\u{e938}',
        IconName::Favorite => '\u{f09a}',
        IconName::Tag => '\u{e893}',
        IconName::Undo => '\u{e166}',
        IconName::Search => '\u{ef7a}',
        IconName::Folder => '\u{e2c7}',
        IconName::FolderOpen => '\u{e2c8}',
        IconName::Document => '\u{e873}',
        IconName::Image => '\u{e3f4}',
        IconName::Archive => '\u{eb2c}',
        IconName::AllFiles => '\u{e9b2}',
        IconName::Trash => '\u{e92e}',
        IconName::List => '\u{e8ef}',
        IconName::Grid => '\u{e9b0}',
        IconName::Sort => '\u{e164}',
        IconName::Filter => '\u{e152}',
        IconName::ChevronRight => '\u{e5cc}',
        IconName::ArrowBack => '\u{e5c4}',
        IconName::Menu => '\u{e5d2}',
        IconName::More => '\u{e5d3}',
        IconName::Close => '\u{e5cd}',
        IconName::Minimize => '\u{e931}',
        IconName::Maximize => '\u{e92c}',
    }
}

/// The built-in Material Symbols Rounded icon provider.
#[derive(Clone, Copy, Debug, Default)]
pub struct MaterialIconFontProvider;

impl MaterialIconFontProvider {
    /// The code point of a semantic icon in the icon font.
    pub fn codepoint(name: IconName) -> (glyph: char)
        ensures
            glyph == material_glyph(name),
    {
        match name {
            IconName::Add => '\u{e145}',
            IconName::Delete => '\u{e92e}',
            IconName::Edit => '\u{f097}',
            IconName::Copy => '\u{e14d}',
            IconName::Move => '\u{e9a1}',
            IconName::Restore => '\u{e938}',
            IconName::Favorite => '\u{f09a}',
            IconName::Tag => '\u{e893}',
            IconName::Undo => '\u{e166}',
            IconName::Search => '\u{ef7a}',
            IconName::Folder => '\u{e2c7}',
            IconName::FolderOpen => '\u{e2c8}',
            IconName::Document => '\u{e873}',
            IconName::Image => '\u{e3f4}',
            IconName::Archive => '\u{eb2c}',
            IconName::AllFiles => '\u{e9b2}',
            IconName::Trash => '\u{e92e}',
            IconName::List => '\u{e8ef}',
            IconName::Grid => '\u{e9b0}',
            IconName::Sort => '\u{e164}',
            IconName::Filter => '\u{e152}',
            IconName::ChevronRight => '\u{e5cc}',
            IconName::ArrowBack => '\u{e5c4}',
            IconName::Menu => '\u{e5d2}',
            IconName::More => '\u{e5d3}',
            IconName::Close => '\u{e5cd}',
            IconName::Minimize => '\u{e931}',
            IconName::Maximize => '\u{e92c}',
        }
    }

    /// The text node content drawing a semantic icon: its single glyph.
    pub fn glyph_text(name: IconName) -> (text: String)
        ensures
            text@ == seq![material_glyph(name)],
    {
        let mut text = String::new();
        string_push(&mut text, Self::codepoint(name));
        text
    }
}

} // verus!
