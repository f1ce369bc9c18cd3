use vstd::prelude::*;

verus! {

/// One of the eight classic terminal colors.
#[derive(Clone, Copy, PartialEq, Eq, Structural, Debug)]
pub enum BaseColor {
    Black,
    Red,
    Green,
    Yellow,
    Blue,
    Magenta,
    Cyan,
    White,
}

/// An abstract color, before reduction to what the terminal supports.
#[derive(Clone, Copy, PartialEq, Eq, Structural, Debug)]
pub enum Color {
    /// The terminal's own default color.
    TerminalDefault,
    /// Dark variant of a classic color.
    Dark(BaseColor),
    /// Light variant of a classic color.
    Light(BaseColor),
    /// True-color value.
    Rgb(u8, u8, u8),
    /// Low-resolution color, each channel in `0..6`.
    RgbLowRes(u8, u8, u8),
    /// A color of the terminal's 256-color palette.
    Palette(u8),
}

/// An ordered foreground/background combination: the key of the
/// color-pair cache, compared by equality.
#[derive(Clone, Copy, PartialEq, Eq, Structural, Debug)]
pub struct ColorPair {
    pub front: Color,
    pub back: Color,
}

impl ColorPair {
    pub fn new(front: Color, back: Color) -> (r: ColorPair)
        ensures
            r == (ColorPair { front, back }),
    {
        ColorPair { front, back }
    }

    /// Both sides taken from the terminal's 256-color palette.
    pub fn from_256colors(front: u8, back: u8) -> (r: ColorPair)
        ensures
            r == (ColorPair { front: Color::Palette(front), back: Color::Palette(back) }),
    {
        ColorPair { front: Color::Palette(front), back: Color::Palette(back) }
    }
}

/// The role a drawn cell plays, resolved to concrete colors by the theme.
#[derive(Clone, Copy, PartialEq, Eq, Structural, Debug)]
pub enum ColorStyle {
    Background,
    Shadow,
    Primary,
    Secondary,
    Tertiary,
    TitlePrimary,
    TitleSecondary,
    Highlight,
    HighlightInactive,
}

/// A visual effect a backend can apply while drawing.
#[derive(Clone, Copy, PartialEq, Eq, Structural, Debug)]
pub enum Effect {
    Simple,
    Reverse,
}

} // verus!
