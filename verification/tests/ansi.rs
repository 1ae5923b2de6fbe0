use crossterm_style::ansi_color::{color_value, get_reset_ansi, get_set_attr_ansi, get_set_bg_ansi,
    get_set_fg_ansi, AnsiColor};
use crossterm_style::{Attribute, ColorType, Colored};

#[test]
fn ansi_test_parse_fg_color() {
    let colored = Colored::Fg(ColorType::Red);
    assert_eq!(color_value(colored), "38;5;9");
}

#[test]
fn ansi_test_parse_bg_color() {
    let colored = Colored::Bg(ColorType::Red);
    assert_eq!(color_value(colored), "48;5;9");
}

#[test]
fn test_parse_reset_fg_color() {
    let colored = Colored::Fg(ColorType::Reset);
    assert_eq!(color_value(colored), "39");
}

#[test]
fn test_parse_reset_bg_color() {
    let colored = Colored::Bg(ColorType::Reset);
    assert_eq!(color_value(colored), "49");
}

#[test]
fn test_parse_fg_rgb_color() {
    let colored = Colored::Bg(ColorType::Rgb { r: 1, g: 2, b: 3 });
    assert_eq!(color_value(colored), "48;2;1;2;3");
}

#[test]
fn test_parse_fg_ansi_color() {
    let colored = Colored::Fg(ColorType::AnsiValue(255));
    assert_eq!(color_value(colored), "38;5;255");
}

#[test]
fn test_decimal_digit_edges() {
    assert_eq!(color_value(Colored::Fg(ColorType::AnsiValue(0))), "38;5;0");
    assert_eq!(color_value(Colored::Fg(ColorType::AnsiValue(10))), "38;5;10");
    assert_eq!(color_value(Colored::Fg(ColorType::AnsiValue(100))), "38;5;100");
    assert_eq!(color_value(Colored::Bg(ColorType::Rgb { r: 0, g: 255, b: 128 })), "48;2;0;255;128");
}

#[test]
fn test_set_fg_escape_sequence() {
    assert_eq!(get_set_fg_ansi(ColorType::Red), "\x1b[38;5;9m");
    assert_eq!(get_set_fg_ansi(ColorType::Reset), "\x1b[39m");
}

#[test]
fn test_set_bg_escape_sequence() {
    assert_eq!(get_set_bg_ansi(ColorType::Blue), "\x1b[48;5;12m");
    assert_eq!(get_set_bg_ansi(ColorType::Reset), "\x1b[49m");
}

#[test]
fn test_set_attr_escape_sequence() {
    assert_eq!(get_set_attr_ansi(Attribute::Underlined), "\x1b[4m");
    assert_eq!(get_set_attr_ansi(Attribute::Reset), "\x1b[0m");
    assert_eq!(get_set_attr_ansi(Attribute::NotOverLined), "\x1b[55m");
}

#[test]
fn test_reset_escape_sequence() {
    assert_eq!(get_reset_ansi(), "\x1b[0m");
}

#[test]
fn test_ansi_backend_methods() {
    let backend = AnsiColor::new();
    assert_eq!(backend.set_fg(ColorType::Green), "\x1b[38;5;10m");
    assert_eq!(backend.set_bg(ColorType::DarkCyan), "\x1b[48;5;6m");
    assert_eq!(backend.reset(), "\x1b[0m");
}
