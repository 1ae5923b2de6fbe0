use crossterm_style::{style, Attribute, ColorType, ObjectStyle, ResetColor, SetAttr, SetBg, SetFg,
    StyleAction, TerminalColor};
use crossterm_style::text::{eq_ignore_case, str_contains};

#[test]
fn objectstyle_test_set_fg_bg_add_attr() {
    let mut object_style = ObjectStyle::new().set_fg(ColorType::Blue).set_bg(ColorType::Red);
    object_style.add_attr(Attribute::Reset);

    assert_eq!(object_style.fg_color, Some(ColorType::Blue));
    assert_eq!(object_style.bg_color, Some(ColorType::Red));
    assert_eq!(object_style.attrs[0], Attribute::Reset);
}

#[test]
fn test_apply_object_style_to_text() {
    let mut object_style = ObjectStyle::new().set_fg(ColorType::Blue).set_bg(ColorType::Red);
    object_style.add_attr(Attribute::Reset);

    let styled_object = object_style.apply_to("test");

    assert_eq!(styled_object.object_style.fg_color, Some(ColorType::Blue));
    assert_eq!(styled_object.object_style.bg_color, Some(ColorType::Red));
    assert_eq!(styled_object.object_style.attrs[0], Attribute::Reset);
}

#[test]
fn styledobject_test_set_fg_bg_add_attr() {
    let mut object_style = ObjectStyle::new().set_fg(ColorType::Blue).set_bg(ColorType::Red);
    object_style.add_attr(Attribute::Reset);

    let mut styled_object = object_style.apply_to("test");

    styled_object = styled_object
        .with(ColorType::Green)
        .on(ColorType::Magenta)
        .attr(Attribute::NoItalic);

    assert_eq!(styled_object.object_style.fg_color, Some(ColorType::Green));
    assert_eq!(styled_object.object_style.bg_color, Some(ColorType::Magenta));
    assert_eq!(styled_object.object_style.attrs.len(), 2);
    assert_eq!(styled_object.object_style.attrs[0], Attribute::Reset);
    assert_eq!(styled_object.object_style.attrs[1], Attribute::NoItalic);
}

#[test]
fn test_style_starts_empty() {
    let styled_object = style("plain");
    assert_eq!(styled_object.object_style.fg_color, None);
    assert_eq!(styled_object.object_style.bg_color, None);
    assert_eq!(styled_object.object_style.attrs.len(), 0);
    assert_eq!(styled_object.content, "plain");
    assert!(!styled_object.object_style.has_style());
}

#[test]
fn test_style_prefix_order() {
    let styled_object = style("text")
        .with(ColorType::Blue)
        .on(ColorType::Red)
        .attr(Attribute::Bold)
        .attr(Attribute::Underlined);
    // Background first, then foreground, then the attributes in order.
    assert_eq!(
        styled_object.object_style.ansi_prefix(),
        "\x1b[48;5;9m\x1b[38;5;12m\x1b[1m\x1b[4m"
    );
    assert!(styled_object.object_style.has_style());
}

#[test]
fn test_commands_ansi_code() {
    assert_eq!(SetFg(ColorType::Blue).ansi_code(), "\x1b[38;5;12m");
    assert_eq!(SetBg(ColorType::Red).ansi_code(), "\x1b[48;5;9m");
    assert_eq!(SetAttr(Attribute::Bold).ansi_code(), "\x1b[1m");
    assert_eq!(ResetColor.ansi_code(), "\x1b[0m");
}

#[test]
fn test_terminal_color_ansi_backend() {
    let mut colored_terminal = TerminalColor::new();
    match colored_terminal.set_fg(ColorType::Blue, 0) {
        StyleAction::Escape(ansi) => assert_eq!(ansi, "\x1b[38;5;12m"),
        StyleAction::Attributes(_) => panic!("expected an escape sequence"),
    }
    match colored_terminal.set_bg(ColorType::Red, 0) {
        StyleAction::Escape(ansi) => assert_eq!(ansi, "\x1b[48;5;9m"),
        StyleAction::Attributes(_) => panic!("expected an escape sequence"),
    }
    match colored_terminal.reset(0) {
        StyleAction::Escape(ansi) => assert_eq!(ansi, "\x1b[0m"),
        StyleAction::Attributes(_) => panic!("expected an escape sequence"),
    }
}

#[test]
fn test_terminal_color_winapi_backend() {
    let mut colored_terminal = TerminalColor::new_with_ansi_support(false);
    let live = 0x0070;
    match colored_terminal.set_fg(ColorType::Red, live) {
        StyleAction::Escape(_) => panic!("expected an attribute word"),
        StyleAction::Attributes(word) => assert_eq!(word, 0x007c),
    }
    match colored_terminal.reset(0x1234) {
        StyleAction::Escape(_) => panic!("expected an attribute word"),
        StyleAction::Attributes(word) => assert_eq!(word, live),
    }
}

#[test]
fn test_available_color_count() {
    let colored_terminal = TerminalColor::new();
    assert_eq!(colored_terminal.available_color_count(Some("xterm-256color")), 256);
    assert_eq!(colored_terminal.available_color_count(Some("xterm")), 8);
    assert_eq!(colored_terminal.available_color_count(Some("256color")), 256);
    assert_eq!(colored_terminal.available_color_count(None), 8);
}

#[test]
fn test_text_helpers() {
    assert!(eq_ignore_case("Grey", "gREY"));
    assert!(!eq_ignore_case("grey", "gray"));
    assert!(str_contains("xterm-256color", "256color"));
    assert!(str_contains("anything", ""));
    assert!(!str_contains("short", "longer than hay"));
}
