//! Native window options and chrome policy of the desktop hosts: the window style of each
//! chrome, the non-client hit-test policy of a custom title bar, the show command a window
//! command becomes, and the NUL-terminated UTF-16 strings that window APIs take.
use vstd::prelude::*;
use vstd::string::StrSliceExecFns;

use crate::session::WindowCommand;
use crate::text::text_equal;

verus! {

/// `WS_OVERLAPPEDWINDOW`.
pub const WS_OVERLAPPEDWINDOW: u32 = 0x00cf_0000;
/// `WS_POPUP`.
pub const WS_POPUP: u32 = 0x8000_0000;
/// `WS_THICKFRAME`.
pub const WS_THICKFRAME: u32 = 0x0004_0000;
/// `WS_MINIMIZEBOX`.
pub const WS_MINIMIZEBOX: u32 = 0x0002_0000;
/// `WS_MAXIMIZEBOX`.
pub const WS_MAXIMIZEBOX: u32 = 0x0001_0000;
/// `HTCLIENT`: the point is in the client area.
pub const HTCLIENT: isize = 1;
/// `HTCAPTION`: the point is in a title bar.
pub const HTCAPTION: isize = 2;
/// `SW_MAXIMIZE`.
pub const SW_MAXIMIZE: i32 = 3;
/// `SW_MINIMIZE`.
pub const SW_MINIMIZE: i32 = 6;
/// `SW_RESTORE`.
pub const SW_RESTORE: i32 = 9;

/// Window chrome form.
#[derive(Clone, Copy, Debug, PartialEq, Eq, Structural)]
pub enum WindowChrome {
    /// System title bar, frame and menu (the default).
    SystemOverlapped,
    /// Borderless window with a drag band and an application-drawn title bar.
    CustomTitleBar,
}

impl Default for WindowChrome {
    fn default() -> (chrome: Self)
        ensures
            chrome == WindowChrome::SystemOverlapped,
    {
        WindowChrome::SystemOverlapped
    }
}

impl WindowChrome {
    /// The window style bits a window of this chrome is created with.
    pub fn window_style(self) -> (style: u32)
        ensures
            style == (match self {
                WindowChrome::SystemOverlapped => WS_OVERLAPPEDWINDOW,
                WindowChrome::CustomTitleBar => WS_POPUP | WS_THICKFRAME | WS_MINIMIZEBOX
                    | WS_MAXIMIZEBOX,
            }),
    {
        match self {
            WindowChrome::SystemOverlapped => WS_OVERLAPPEDWINDOW,
            WindowChrome::CustomTitleBar => WS_POPUP | WS_THICKFRAME | WS_MINIMIZEBOX
                | WS_MAXIMIZEBOX,
        }
    }
}

/// The non-client hit-test answer: system chrome, and any point the system does not place in
/// the client area, keep the system's answer; in a custom title bar's client area, a point on
/// the drag band (not on an interactive node) is a caption, anything else stays client.
pub fn nc_hit_result(chrome: WindowChrome, system_hit: isize, on_drag_band: bool) -> (hit: isize)
    ensures
        hit == (if chrome != WindowChrome::CustomTitleBar || system_hit != HTCLIENT {
            system_hit
        } else if on_drag_band {
            HTCAPTION
        } else {
            HTCLIENT
        }),
{
    if chrome != WindowChrome::CustomTitleBar || system_hit != HTCLIENT {
        return system_hit;
    }
    if on_drag_band {
        HTCAPTION
    } else {
        HTCLIENT
    }
}

/// What carrying out a custom-chrome window command amounts to.
#[derive(Clone, Copy, Debug, PartialEq, Eq, Structural)]
pub enum WindowAction {
    /// Show the window with this `SW_*` command.
    Show(i32),
    /// Post `WM_CLOSE`, so that closing runs its full course.
    PostClose,
}

/// The action of a window command: minimize; maximize, or restore when already maximized;
/// close through `WM_CLOSE`.
pub fn window_action(command: WindowCommand, zoomed: bool) -> (action: WindowAction)
    ensures
        action == (match command {
            WindowCommand::Minimize => WindowAction::Show(SW_MINIMIZE),
            WindowCommand::Maximize => WindowAction::Show(
                if zoomed {
                    SW_RESTORE
                } else {
                    SW_MAXIMIZE
                },
            ),
            WindowCommand::Close => WindowAction::PostClose,
        }),
{
    match command {
        WindowCommand::Minimize => WindowAction::Show(SW_MINIMIZE),
        WindowCommand::Maximize => WindowAction::Show(
            if zoomed {
                SW_RESTORE
            } else {
                SW_MAXIMIZE
            },
        ),
        WindowCommand::Close => WindowAction::PostClose,
    }
}

/// Window options of a static product.
#[derive(Clone, Debug)]
pub struct NativeWindowOptions {
    /// Window title.
    pub title: String,
    /// Initial width in physical pixels.
    pub width: i32,
    /// Initial height in physical pixels.
    pub height: i32,
    /// Chrome form; static products default to a custom title bar.
    pub chrome: WindowChrome,
}

impl NativeWindowOptions {
    /// Default options for a title: 960 x 640 with a custom title bar.
    pub fn new(title: &str) -> (options: Self)
        ensures
            options.title@ == title@,
            options.width == 960,
            options.height == 640,
            options.chrome == WindowChrome::CustomTitleBar,
    {
        NativeWindowOptions {
            title: title.to_owned(),
            width: 960,
            height: 640,
            chrome: WindowChrome::CustomTitleBar,
        }
    }

    /// Sets the initial window size in physical pixels.
    pub fn size(self, width: i32, height: i32) -> (options: Self)
        ensures
            options.title@ == self.title@,
            options.width == width,
            options.height == height,
            options.chrome == self.chrome,
    {
        NativeWindowOptions { width, height, ..self }
    }

    /// Switches to the system chrome.
    pub fn system_chrome(self) -> (options: Self)
        ensures
            options.title@ == self.title@,
            options.width == self.width,
            options.height == self.height,
            options.chrome == WindowChrome::SystemOverlapped,
    {
        NativeWindowOptions { chrome: WindowChrome::SystemOverlapped, ..self }
    }
}

/// UTF-16 code units of one character: itself below `U+10000`, else a surrogate pair.
pub open spec fn utf16_units(c: char) -> Seq<u16> {
    let v = c as int;
    if v < 0x1_0000 {
        seq![v as u16]
    } else {
        seq![(0xd800 + (v - 0x1_0000) / 0x400) as u16, (0xdc00 + (v - 0x1_0000) % 0x400) as u16]
    }
}

/// UTF-16 encoding of a text.
pub open spec fn utf16_encoding(text: Seq<char>) -> Seq<u16>
    decreases text.len(),
{
    if text.len() == 0 {
        Seq::empty()
    } else {
        utf16_encoding(text.drop_last()) + utf16_units(text.last())
    }
}

/// The UTF-16 encoding of a text followed by a NUL unit, as wide-string window APIs take it.
pub fn utf16z(value: &str) -> (units: Vec<u16>)
    ensures
        units@ == utf16_encoding(value@).push(0),
{
    let count: usize = value.unicode_len();
    let mut units: Vec<u16> = Vec::new();
    let mut i: usize = 0;
    while i < count
        invariant
            count == value@.len(),
            i <= count,
            units@ == utf16_encoding(value@.subrange(0, i as int)),
        decreases count - i,
    {
        let c = value.get_char(i);
        let v: u32 = c as u32;
        assert(value@.subrange(0, i + 1).drop_last() =~= value@.subrange(0, i as int));
        if v < 0x1_0000 {
            units.push(v as u16);
        } else {
            let rest: u32 = v - 0x1_0000;
            units.push((0xd800 + rest / 0x400) as u16);
            units.push((0xdc00 + rest % 0x400) as u16);
        }
        assert(units@ =~= utf16_encoding(value@.subrange(0, i + 1)));
        i = i + 1;
    }
    assert(value@.subrange(0, count as int) =~= value@);
    units.push(0);
    units
}

/// Whether a trace switch value turns tracing on: `1`, `true` or `yes`.
pub fn trace_switch_enabled(value: Option<&str>) -> (enabled: bool)
    ensures
        enabled == (value matches Some(v) && (v@ == "1"@ || v@ == "true"@ || v@ == "yes"@)),
{
    match value {
        Some(v) => text_equal(v, "1") || text_equal(v, "true") || text_equal(v, "yes"),
        None => false,
    }
}

} // verus!
