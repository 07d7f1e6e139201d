use ssher::theme::{ColorName, color_of_lowered, parse_color};

#[test]
fn parse_color_basic_colors() {
    assert_eq!(parse_color("black"), ColorName::Black);
    assert_eq!(parse_color("red"), ColorName::Red);
    assert_eq!(parse_color("green"), ColorName::Green);
    assert_eq!(parse_color("yellow"), ColorName::Yellow);
    assert_eq!(parse_color("blue"), ColorName::Blue);
    assert_eq!(parse_color("magenta"), ColorName::Magenta);
    assert_eq!(parse_color("cyan"), ColorName::Cyan);
    assert_eq!(parse_color("white"), ColorName::White);
}

#[test]
fn parse_color_case_insensitive() {
    assert_eq!(parse_color("RED"), ColorName::Red);
    assert_eq!(parse_color("Red"), ColorName::Red);
    assert_eq!(parse_color("rEd"), ColorName::Red);
}

#[test]
fn parse_color_underscore_variants() {
    assert_eq!(parse_color("light_red"), ColorName::LightRed);
    assert_eq!(parse_color("lightred"), ColorName::LightRed);
    assert_eq!(parse_color("dark_gray"), ColorName::DarkGray);
    assert_eq!(parse_color("darkgray"), ColorName::DarkGray);
}

#[test]
fn parse_color_invalid_defaults_to_white() {
    assert_eq!(parse_color("invalidcolor"), ColorName::White);
    assert_eq!(parse_color(""), ColorName::White);
    assert_eq!(parse_color("notarecolor"), ColorName::White);
}

#[test]
fn parse_color_light_variants() {
    assert_eq!(parse_color("lightred"), ColorName::LightRed);
    assert_eq!(parse_color("lightgreen"), ColorName::LightGreen);
    assert_eq!(parse_color("lightyellow"), ColorName::LightYellow);
    assert_eq!(parse_color("lightblue"), ColorName::LightBlue);
    assert_eq!(parse_color("lightmagenta"), ColorName::LightMagenta);
    assert_eq!(parse_color("lightcyan"), ColorName::LightCyan);
}

#[test]
fn lowered_names_are_matched_as_given() {
    assert_eq!(color_of_lowered("red"), ColorName::Red);
    assert_eq!(color_of_lowered("RED"), ColorName::White);
}
