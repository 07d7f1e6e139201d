//! Color names as the configuration writes them.
use crate::text::{lower_of, str_eq, to_lower};
use vstd::prelude::*;

verus! {

/// The sixteen terminal colors.
#[derive(Clone, Copy, Debug, PartialEq, Eq, Structural)]
pub enum ColorName {
    Black,
    Red,
    Green,
    Yellow,
    Blue,
    Magenta,
    Cyan,
    Gray,
    DarkGray,
    LightRed,
    LightGreen,
    LightYellow,
    LightBlue,
    LightMagenta,
    LightCyan,
    White,
}

/// The color a lower-cased name denotes; unknown names are white.
pub open spec fn color_for(n: Seq<char>) -> ColorName {
    if n == "black"@ {
        ColorName::Black
    } else if n == "red"@ {
        ColorName::Red
    } else if n == "green"@ {
        ColorName::Green
    } else if n == "yellow"@ {
        ColorName::Yellow
    } else if n == "blue"@ {
        ColorName::Blue
    } else if n == "magenta"@ {
        ColorName::Magenta
    } else if n == "cyan"@ {
        ColorName::Cyan
    } else if n == "gray"@ {
        ColorName::Gray
    } else if n == "darkgray"@ || n == "dark_gray"@ {
        ColorName::DarkGray
    } else if n == "lightred"@ || n == "light_red"@ {
        ColorName::LightRed
    } else if n == "lightgreen"@ || n == "light_green"@ {
        ColorName::LightGreen
    } else if n == "lightyellow"@ || n == "light_yellow"@ {
        ColorName::LightYellow
    } else if n == "lightblue"@ || n == "light_blue"@ {
        ColorName::LightBlue
    } else if n == "lightmagenta"@ || n == "light_magenta"@ {
        ColorName::LightMagenta
    } else if n == "lightcyan"@ || n == "light_cyan"@ {
        ColorName::LightCyan
    } else {
        ColorName::White
    }
}

/// The color a name denotes, ignoring case; unknown names are white.
pub fn parse_color(name: &str) -> (r: ColorName)
    ensures
        r == color_for(lower_of(name@)),
{
    let lowered = to_lower(name);
    color_of_lowered(lowered.as_str())
}

/// The color an already lower-cased name denotes.
pub fn color_of_lowered(n: &str) -> (r: ColorName)
    ensures
        r == color_for(n@),
{
    if str_eq(n, "black") {
        ColorName::Black
    } else if str_eq(n, "red") {
        ColorName::Red
    } else if str_eq(n, "green") {
        ColorName::Green
    } else if str_eq(n, "yellow") {
        ColorName::Yellow
    } else if str_eq(n, "blue") {
        ColorName::Blue
    } else if str_eq(n, "magenta") {
        ColorName::Magenta
    } else if str_eq(n, "cyan") {
        ColorName::Cyan
    } else if str_eq(n, "gray") {
        ColorName::Gray
    } else if str_eq(n, "darkgray") || str_eq(n, "dark_gray") {
        ColorName::DarkGray
    } else if str_eq(n, "lightred") || str_eq(n, "light_red") {
        ColorName::LightRed
    } else if str_eq(n, "lightgreen") || str_eq(n, "light_green") {
        ColorName::LightGreen
    } else if str_eq(n, "lightyellow") || str_eq(n, "light_yellow") {
        ColorName::LightYellow
    } else if str_eq(n, "lightblue") || str_eq(n, "light_blue") {
        ColorName::LightBlue
    } else if str_eq(n, "lightmagenta") || str_eq(n, "light_magenta") {
        ColorName::LightMagenta
    } else if str_eq(n, "lightcyan") || str_eq(n, "light_cyan") {
        ColorName::LightCyan
    } else {
        ColorName::White
    }
}

} // verus!
