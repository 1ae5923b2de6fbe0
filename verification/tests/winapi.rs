use crossterm_style::winapi_color::{color_value, WinApiColor};
use crossterm_style::winapi_color::{BG_INTENSITY, BG_RED, FG_INTENSITY, FG_RED};
use crossterm_style::{ColorType, Colored};

#[test]
fn winapi_test_parse_fg_color() {
    let colored = Colored::Fg(ColorType::Red);
    assert_eq!(color_value(colored, 0), FG_INTENSITY | FG_RED);
}

#[test]
fn winapi_test_parse_bg_color() {
    let colored = Colored::Bg(ColorType::Red);
    assert_eq!(color_value(colored, 0), BG_INTENSITY | BG_RED);
}

#[test]
fn test_original_console_color_is_set() {
    let mut backend = WinApiColor::new();
    assert!(!backend.is_baseline_captured());

    backend.ensure_baseline_captured(0x0017);

    assert!(backend.is_baseline_captured());
    assert_eq!(backend.original_console_color(), 0x0017);
}

#[test]
fn test_foreground_bits_table() {
    let cases: [(ColorType, u16); 16] = [
        (ColorType::Black, 0x0000),
        (ColorType::DarkGrey, 0x0008),
        (ColorType::Red, 0x000c),
        (ColorType::DarkRed, 0x0004),
        (ColorType::Green, 0x000a),
        (ColorType::DarkGreen, 0x0002),
        (ColorType::Yellow, 0x000e),
        (ColorType::DarkYellow, 0x0006),
        (ColorType::Blue, 0x0009),
        (ColorType::DarkBlue, 0x0001),
        (ColorType::Magenta, 0x000d),
        (ColorType::DarkMagenta, 0x0005),
        (ColorType::Cyan, 0x000b),
        (ColorType::DarkCyan, 0x0003),
        (ColorType::White, 0x0007),
        (ColorType::Grey, 0x000f),
    ];
    for (color, expected) in cases {
        assert_eq!(color_value(Colored::Fg(color), 0), expected);
    }
}

#[test]
fn test_background_bits_table() {
    // Note the asymmetry with the foreground table: in the background
    // table White carries the intensity bit and Grey does not.
    let cases: [(ColorType, u16); 16] = [
        (ColorType::Black, 0x0000),
        (ColorType::DarkGrey, 0x0080),
        (ColorType::Red, 0x00c0),
        (ColorType::DarkRed, 0x0040),
        (ColorType::Green, 0x00a0),
        (ColorType::DarkGreen, 0x0020),
        (ColorType::Yellow, 0x00e0),
        (ColorType::DarkYellow, 0x0060),
        (ColorType::Blue, 0x0090),
        (ColorType::DarkBlue, 0x0010),
        (ColorType::Magenta, 0x00d0),
        (ColorType::DarkMagenta, 0x0050),
        (ColorType::Cyan, 0x00b0),
        (ColorType::DarkCyan, 0x0030),
        (ColorType::White, 0x00f0),
        (ColorType::Grey, 0x0070),
    ];
    for (color, expected) in cases {
        assert_eq!(color_value(Colored::Bg(color), 0), expected);
    }
}

#[test]
fn test_set_fg_then_bg_sets_both_portions() {
    let mut backend = WinApiColor::new();
    let live = 0x0007;
    let after_fg = backend.set_fg(ColorType::Blue, live);
    let after_bg = backend.set_bg(ColorType::Red, after_fg);
    // Foreground portion is Blue's bits, background portion is Red's.
    assert_eq!(after_bg & 0x000f, 0x0009);
    assert_eq!(after_bg & 0x00f0, 0x00c0);

    // The opposite order leaves the identical word.
    let mut other = WinApiColor::new();
    let after_bg_first = other.set_bg(ColorType::Red, live);
    let after_both = other.set_fg(ColorType::Blue, after_bg_first);
    assert_eq!(after_both, after_bg);
}

#[test]
fn test_baseline_is_captured_only_once() {
    let mut backend = WinApiColor::new();
    backend.ensure_baseline_captured(0x0042);
    assert_eq!(backend.original_console_color(), 0x0042);

    // The live attributes changed; the stored baseline must not.
    backend.ensure_baseline_captured(0x0099);
    assert_eq!(backend.original_console_color(), 0x0042);
}

#[test]
fn test_reset_restores_baseline_after_changes() {
    let mut backend = WinApiColor::new();
    let baseline = 0x0123;
    let w1 = backend.set_fg(ColorType::Green, baseline);
    let w2 = backend.set_bg(ColorType::Yellow, w1);
    let w3 = backend.set_fg(ColorType::Magenta, w2);
    assert_eq!(backend.reset(w3), baseline);
}

#[test]
fn test_reset_fg_keeps_live_background() {
    let mut backend = WinApiColor::new();
    let baseline = 0x0007;
    let with_red_bg = backend.set_bg(ColorType::Red, baseline);
    let with_blue_fg = backend.set_fg(ColorType::Blue, with_red_bg);
    let restored = backend.set_fg(ColorType::Reset, with_blue_fg);
    // The background keeps the live Red-intensity pattern, not the
    // baseline's background; the foreground is the baseline's again.
    assert_eq!(restored & 0x00f0, 0x00c0);
    assert_eq!(restored & 0x000f, baseline & 0x000f);
    assert_eq!(restored, 0x00c7);
}

#[test]
fn test_unrepresentable_color_contributes_nothing() {
    let rgb = Colored::Fg(ColorType::Rgb { r: 1, g: 2, b: 3 });
    assert_eq!(color_value(rgb, 0xffff), 0);
    let ansi_value = Colored::Bg(ColorType::AnsiValue(200));
    assert_eq!(color_value(ansi_value, 0xffff), 0);

    // Through a foreground change it leaves only the background bits.
    let mut backend = WinApiColor::new();
    let word = backend.set_fg(ColorType::Rgb { r: 1, g: 2, b: 3 }, 0x00a5);
    assert_eq!(word, 0x00a0);
}
