use crossterm_style::ColorType;

#[test]
fn test_known_color_conversion() {
    assert_eq!("black".parse(), Ok(ColorType::Black));
    assert_eq!("dark_grey".parse(), Ok(ColorType::DarkGrey));
    assert_eq!("red".parse(), Ok(ColorType::Red));
    assert_eq!("dark_red".parse(), Ok(ColorType::DarkRed));
    assert_eq!("green".parse(), Ok(ColorType::Green));
    assert_eq!("dark_green".parse(), Ok(ColorType::DarkGreen));
    assert_eq!("yellow".parse(), Ok(ColorType::Yellow));
    assert_eq!("dark_yellow".parse(), Ok(ColorType::DarkYellow));
    assert_eq!("blue".parse(), Ok(ColorType::Blue));
    assert_eq!("dark_blue".parse(), Ok(ColorType::DarkBlue));
    assert_eq!("magenta".parse(), Ok(ColorType::Magenta));
    assert_eq!("dark_magenta".parse(), Ok(ColorType::DarkMagenta));
    assert_eq!("cyan".parse(), Ok(ColorType::Cyan));
    assert_eq!("dark_cyan".parse(), Ok(ColorType::DarkCyan));
    assert_eq!("white".parse(), Ok(ColorType::White));
    assert_eq!("grey".parse(), Ok(ColorType::Grey));
}

#[test]
fn test_unknown_color_conversion_yields_white() {
    assert_eq!("foo".parse(), Ok(ColorType::White));
}

#[test]
fn test_color_conversion_ignores_case() {
    assert_eq!("BLACK".parse(), Ok(ColorType::Black));
    assert_eq!("Dark_Grey".parse(), Ok(ColorType::DarkGrey));
    assert_eq!("MaGeNtA".parse(), Ok(ColorType::Magenta));
}

#[test]
fn test_from_name_directly() {
    assert_eq!(ColorType::from_name("cyan"), ColorType::Cyan);
    assert_eq!(ColorType::from_name(""), ColorType::White);
    assert_eq!(ColorType::from_name("blacker"), ColorType::White);
}
