use tela::session::WindowCommand;
use tela::window::{
    nc_hit_result, trace_switch_enabled, utf16z, window_action, NativeWindowOptions, WindowAction,
    WindowChrome, HTCAPTION, HTCLIENT, SW_MAXIMIZE, SW_MINIMIZE, SW_RESTORE,
};

#[test]
fn native_window_options_default_to_custom_chrome() {
    let options = NativeWindowOptions::new("Tela");
    assert_eq!(options.title, "Tela");
    assert_eq!((options.width, options.height), (960, 640));
    assert_eq!(options.chrome, WindowChrome::CustomTitleBar);
    let options = options.size(1280, 800).system_chrome();
    assert_eq!((options.width, options.height), (1280, 800));
    assert_eq!(options.chrome, WindowChrome::SystemOverlapped);
    assert_eq!(WindowChrome::default(), WindowChrome::SystemOverlapped);
}

#[test]
fn chrome_styles_are_the_win32_style_bits() {
    assert_eq!(WindowChrome::SystemOverlapped.window_style(), 0x00cf_0000);
    assert_eq!(WindowChrome::CustomTitleBar.window_style(), 0x8007_0000);
}

#[test]
fn drag_band_becomes_caption_only_with_custom_chrome() {
    assert_eq!(nc_hit_result(WindowChrome::CustomTitleBar, HTCLIENT, true), HTCAPTION);
    assert_eq!(nc_hit_result(WindowChrome::CustomTitleBar, HTCLIENT, false), HTCLIENT);
    assert_eq!(nc_hit_result(WindowChrome::CustomTitleBar, 17, true), 17);
    assert_eq!(nc_hit_result(WindowChrome::SystemOverlapped, HTCLIENT, true), HTCLIENT);
}

#[test]
fn window_commands_map_to_show_commands() {
    assert_eq!(window_action(WindowCommand::Minimize, false), WindowAction::Show(SW_MINIMIZE));
    assert_eq!(window_action(WindowCommand::Maximize, false), WindowAction::Show(SW_MAXIMIZE));
    assert_eq!(window_action(WindowCommand::Maximize, true), WindowAction::Show(SW_RESTORE));
    assert_eq!(window_action(WindowCommand::Close, true), WindowAction::PostClose);
}

#[test]
fn utf16z_encodes_and_terminates() {
    assert_eq!(utf16z(""), vec![0]);
    assert_eq!(utf16z("Tela 中"), vec![0x54, 0x65, 0x6c, 0x61, 0x20, 0x4e2d, 0]);
    let mut expected: Vec<u16> = "a😀".encode_utf16().collect();
    expected.push(0);
    assert_eq!(utf16z("a😀"), expected);
}

#[test]
fn trace_switch_accepts_three_spellings() {
    assert!(trace_switch_enabled(Some("1")));
    assert!(trace_switch_enabled(Some("true")));
    assert!(trace_switch_enabled(Some("yes")));
    assert!(!trace_switch_enabled(Some("TRUE")));
    assert!(!trace_switch_enabled(Some("")));
    assert!(!trace_switch_enabled(None));
}
