//! Styles: an optional foreground colour, an optional background colour and a
//! set of text attributes.

use vstd::prelude::*;

verus! {

/// A terminal colour.
#[derive(Debug, Clone, Copy, PartialEq, Eq, Structural)]
pub enum Color {
    /// The terminal's own default colour.
    Reset,
    Black,
    DarkGrey,
    Red,
    DarkRed,
    Green,
    DarkGreen,
    Yellow,
    DarkYellow,
    Blue,
    DarkBlue,
    Magenta,
    DarkMagenta,
    Cyan,
    DarkCyan,
    White,
    Grey,
    /// A colour given by its red, green and blue parts.
    Rgb { r: u8, g: u8, b: u8 },
    /// A colour of the 256-colour palette.
    AnsiValue(u8),
}

/// A single text attribute.
#[derive(Debug, Clone, Copy, PartialEq, Eq, Structural)]
pub enum Attribute {
    Reset,
    Bold,
    Dim,
    Italic,
    Underlined,
    SlowBlink,
    RapidBlink,
    Reverse,
    Hidden,
    CrossedOut,
    Fraktur,
    NoBold,
    NormalIntensity,
    NoItalic,
    NoUnderline,
    NoBlink,
    NoReverse,
    NoHidden,
    NotCrossedOut,
    Framed,
    Encircled,
    OverLined,
    NotFramedOrEncircled,
    NotOverLined,
}

impl Attribute {
    /// The bit that stands for the attribute in an [`Attributes`] set.
    pub open spec fn mask(self) -> u32 {
        match self {
            Attribute::Reset => 0x1u32,
            Attribute::Bold => 0x2u32,
            Attribute::Dim => 0x4u32,
            Attribute::Italic => 0x8u32,
            Attribute::Underlined => 0x10u32,
            Attribute::SlowBlink => 0x20u32,
            Attribute::RapidBlink => 0x40u32,
            Attribute::Reverse => 0x80u32,
            Attribute::Hidden => 0x100u32,
            Attribute::CrossedOut => 0x200u32,
            Attribute::Fraktur => 0x400u32,
            Attribute::NoBold => 0x800u32,
            Attribute::NormalIntensity => 0x1000u32,
            Attribute::NoItalic => 0x2000u32,
            Attribute::NoUnderline => 0x4000u32,
            Attribute::NoBlink => 0x8000u32,
            Attribute::NoReverse => 0x10000u32,
            Attribute::NoHidden => 0x20000u32,
            Attribute::NotCrossedOut => 0x40000u32,
            Attribute::Framed => 0x80000u32,
            Attribute::Encircled => 0x100000u32,
            Attribute::OverLined => 0x200000u32,
            Attribute::NotFramedOrEncircled => 0x400000u32,
            Attribute::NotOverLined => 0x800000u32,
        }
    }

    /// See [`Attribute::mask`].
    pub fn bit(self) -> (r: u32)
        ensures
            r == self.mask(),
    {
        match self {
            Attribute::Reset => 0x1,
            Attribute::Bold => 0x2,
            Attribute::Dim => 0x4,
            Attribute::Italic => 0x8,
            Attribute::Underlined => 0x10,
            Attribute::SlowBlink => 0x20,
            Attribute::RapidBlink => 0x40,
            Attribute::Reverse => 0x80,
            Attribute::Hidden => 0x100,
            Attribute::CrossedOut => 0x200,
            Attribute::Fraktur => 0x400,
            Attribute::NoBold => 0x800,
            Attribute::NormalIntensity => 0x1000,
            Attribute::NoItalic => 0x2000,
            Attribute::NoUnderline => 0x4000,
            Attribute::NoBlink => 0x8000,
            Attribute::NoReverse => 0x10000,
            Attribute::NoHidden => 0x20000,
            Attribute::NotCrossedOut => 0x40000,
            Attribute::Framed => 0x80000,
            Attribute::Encircled => 0x100000,
            Attribute::OverLined => 0x200000,
            Attribute::NotFramedOrEncircled => 0x400000,
            Attribute::NotOverLined => 0x800000,
        }
    }
}

/// A set of text attributes, one bit each.
#[derive(Debug, Clone, Copy, PartialEq, Eq, Structural)]
pub struct Attributes {
    pub bits: u32,
}

impl Attributes {
    /// The empty set.
    pub fn none() -> (r: Self)
        ensures
            r.bits == 0,
    {
        Attributes { bits: 0 }
    }

    /// The set that holds `attribute` alone.
    pub fn only(attribute: Attribute) -> (r: Self)
        ensures
            r.bits == attribute.mask(),
    {
        Attributes { bits: attribute.bit() }
    }

    /// The set holds `attribute`.
    pub open spec fn holds(self, attribute: Attribute) -> bool {
        self.bits & attribute.mask() != 0
    }

    /// The set of everything in `self` or in `other`.
    pub open spec fn merged(self, other: Attributes) -> Attributes {
        Attributes { bits: self.bits | other.bits }
    }

    pub fn is_empty(&self) -> (r: bool)
        ensures
            r == (self.bits == 0),
    {
        self.bits == 0
    }

    pub fn has(&self, attribute: Attribute) -> (r: bool)
        ensures
            r == self.holds(attribute),
    {
        self.bits & attribute.bit() != 0
    }

    /// The set with `attribute` added.
    pub fn with(self, attribute: Attribute) -> (r: Self)
        ensures
            r == self.merged(Attributes { bits: attribute.mask() }),
    {
        Attributes { bits: self.bits | attribute.bit() }
    }

    /// The union of the two sets.
    pub fn union(self, other: Attributes) -> (r: Self)
        ensures
            r == self.merged(other),
    {
        Attributes { bits: self.bits | other.bits }
    }
}

impl Default for Attributes {
    fn default() -> (r: Self)
        ensures
            r.bits == 0,
    {
        Attributes { bits: 0 }
    }
}

/// Merging keeps what either set held, and merging a set a second time
/// changes nothing.
pub proof fn lemma_merged_holds(a: Attributes, b: Attributes, attribute: Attribute)
    ensures
        a.merged(b).holds(attribute) == (a.holds(attribute) || b.holds(attribute)),
        a.merged(b).merged(b) == a.merged(b),
        a.merged(b) == b.merged(a),
        a.merged(Attributes { bits: 0 }) == a,
{
    let x = a.bits;
    let y = b.bits;
    let m = attribute.mask();
    assert(((x | y) & m != 0) == ((x & m != 0) || (y & m != 0))) by (bit_vector);
    assert((x | y) | y == x | y) by (bit_vector);
    assert(x | y == y | x) by (bit_vector);
    assert(x | 0u32 == x) by (bit_vector);
}

/// An optional foreground, an optional background and a set of attributes,
/// to be applied to a rectangle of cells.
#[derive(Debug, Clone, Copy, PartialEq, Eq, Structural)]
pub struct Style {
    pub fg: Option<Color>,
    pub bg: Option<Color>,
    pub attrs: Attributes,
}

impl Style {
    /// The style that changes nothing.
    pub fn new() -> (r: Self)
        ensures
            r == (Style { fg: None, bg: None, attrs: Attributes { bits: 0 } }),
    {
        Style { fg: None, bg: None, attrs: Attributes { bits: 0 } }
    }

    pub fn fg(self, color: Color) -> (r: Self)
        ensures
            r == (Style { fg: Some(color), ..self }),
    {
        Style { fg: Some(color), bg: self.bg, attrs: self.attrs }
    }

    pub fn bg(self, color: Color) -> (r: Self)
        ensures
            r == (Style { bg: Some(color), ..self }),
    {
        Style { fg: self.fg, bg: Some(color), attrs: self.attrs }
    }

    pub fn attr(self, attr: Attribute) -> (r: Self)
        ensures
            r == (Style {
                attrs: self.attrs.merged(Attributes { bits: attr.mask() }),
                ..self
            }),
    {
        Style { fg: self.fg, bg: self.bg, attrs: self.attrs.with(attr) }
    }

    /// The style with the attribute `Reset` added.
    pub fn reset(self) -> (r: Self)
        ensures
            r == (Style {
                attrs: self.attrs.merged(Attributes { bits: Attribute::Reset.mask() }),
                ..self
            }),
    {
        self.attr(Attribute::Reset)
    }

    /// The style with the attribute `Bold` added.
    pub fn bold(self) -> (r: Self)
        ensures
            r == (Style {
                attrs: self.attrs.merged(Attributes { bits: Attribute::Bold.mask() }),
                ..self
            }),
    {
        self.attr(Attribute::Bold)
    }

    /// The style with the attribute `Underlined` added.
    pub fn underlined(self) -> (r: Self)
        ensures
            r == (Style {
                attrs: self.attrs.merged(Attributes { bits: Attribute::Underlined.mask() }),
                ..self
            }),
    {
        self.attr(Attribute::Underlined)
    }

    /// The style with the attribute `Reverse` added.
    pub fn reverse(self) -> (r: Self)
        ensures
            r == (Style {
                attrs: self.attrs.merged(Attributes { bits: Attribute::Reverse.mask() }),
                ..self
            }),
    {
        self.attr(Attribute::Reverse)
    }

    /// The style with the attribute `Dim` added.
    pub fn dim(self) -> (r: Self)
        ensures
            r == (Style {
                attrs: self.attrs.merged(Attributes { bits: Attribute::Dim.mask() }),
                ..self
            }),
    {
        self.attr(Attribute::Dim)
    }

    /// The style with the attribute `Italic` added.
    pub fn italic(self) -> (r: Self)
        ensures
            r == (Style {
                attrs: self.attrs.merged(Attributes { bits: Attribute::Italic.mask() }),
                ..self
            }),
    {
        self.attr(Attribute::Italic)
    }

    /// The style with the attribute `Reverse` added.
    pub fn negative(self) -> (r: Self)
        ensures
            r == (Style {
                attrs: self.attrs.merged(Attributes { bits: Attribute::Reverse.mask() }),
                ..self
            }),
    {
        self.attr(Attribute::Reverse)
    }

    /// The style with the attribute `SlowBlink` added.
    pub fn slow_blink(self) -> (r: Self)
        ensures
            r == (Style {
                attrs: self.attrs.merged(Attributes { bits: Attribute::SlowBlink.mask() }),
                ..self
            }),
    {
        self.attr(Attribute::SlowBlink)
    }

    /// The style with the attribute `RapidBlink` added.
    pub fn rapid_blink(self) -> (r: Self)
        ensures
            r == (Style {
                attrs: self.attrs.merged(Attributes { bits: Attribute::RapidBlink.mask() }),
                ..self
            }),
    {
        self.attr(Attribute::RapidBlink)
    }

    /// The style with the attribute `Hidden` added.
    pub fn hidden(self) -> (r: Self)
        ensures
            r == (Style {
                attrs: self.attrs.merged(Attributes { bits: Attribute::Hidden.mask() }),
                ..self
            }),
    {
        self.attr(Attribute::Hidden)
    }

    /// The style with the attribute `CrossedOut` added.
    pub fn crossed_out(self) -> (r: Self)
        ensures
            r == (Style {
                attrs: self.attrs.merged(Attributes { bits: Attribute::CrossedOut.mask() }),
                ..self
            }),
    {
        self.attr(Attribute::CrossedOut)
    }

    pub fn black(self) -> (r: Self)
        ensures
            r == (Style { fg: Some(Color::Black), ..self }),
    {
        self.fg(Color::Black)
    }

    pub fn on_black(self) -> (r: Self)
        ensures
            r == (Style { bg: Some(Color::Black), ..self }),
    {
        self.bg(Color::Black)
    }

    pub fn dark_grey(self) -> (r: Self)
        ensures
            r == (Style { fg: Some(Color::DarkGrey), ..self }),
    {
        self.fg(Color::DarkGrey)
    }

    pub fn on_dark_grey(self) -> (r: Self)
        ensures
            r == (Style { bg: Some(Color::DarkGrey), ..self }),
    {
        self.bg(Color::DarkGrey)
    }

    pub fn red(self) -> (r: Self)
        ensures
            r == (Style { fg: Some(Color::Red), ..self }),
    {
        self.fg(Color::Red)
    }

    pub fn on_red(self) -> (r: Self)
        ensures
            r == (Style { bg: Some(Color::Red), ..self }),
    {
        self.bg(Color::Red)
    }

    pub fn dark_red(self) -> (r: Self)
        ensures
            r == (Style { fg: Some(Color::DarkRed), ..self }),
    {
        self.fg(Color::DarkRed)
    }

    pub fn on_dark_red(self) -> (r: Self)
        ensures
            r == (Style { bg: Some(Color::DarkRed), ..self }),
    {
        self.bg(Color::DarkRed)
    }

    pub fn green(self) -> (r: Self)
        ensures
            r == (Style { fg: Some(Color::Green), ..self }),
    {
        self.fg(Color::Green)
    }

    pub fn on_green(self) -> (r: Self)
        ensures
            r == (Style { bg: Some(Color::Green), ..self }),
    {
        self.bg(Color::Green)
    }

    pub fn dark_green(self) -> (r: Self)
        ensures
            r == (Style { fg: Some(Color::DarkGreen), ..self }),
    {
        self.fg(Color::DarkGreen)
    }

    pub fn on_dark_green(self) -> (r: Self)
        ensures
            r == (Style { bg: Some(Color::DarkGreen), ..self }),
    {
        self.bg(Color::DarkGreen)
    }

    pub fn yellow(self) -> (r: Self)
        ensures
            r == (Style { fg: Some(Color::Yellow), ..self }),
    {
        self.fg(Color::Yellow)
    }

    pub fn on_yellow(self) -> (r: Self)
        ensures
            r == (Style { bg: Some(Color::Yellow), ..self }),
    {
        self.bg(Color::Yellow)
    }

    pub fn dark_yellow(self) -> (r: Self)
        ensures
            r == (Style { fg: Some(Color::DarkYellow), ..self }),
    {
        self.fg(Color::DarkYellow)
    }

    pub fn on_dark_yellow(self) -> (r: Self)
        ensures
            r == (Style { bg: Some(Color::DarkYellow), ..self }),
    {
        self.bg(Color::DarkYellow)
    }

    pub fn blue(self) -> (r: Self)
        ensures
            r == (Style { fg: Some(Color::Blue), ..self }),
    {
        self.fg(Color::Blue)
    }

    pub fn on_blue(self) -> (r: Self)
        ensures
            r == (Style { bg: Some(Color::Blue), ..self }),
    {
        self.bg(Color::Blue)
    }

    pub fn dark_blue(self) -> (r: Self)
        ensures
            r == (Style { fg: Some(Color::DarkBlue), ..self }),
    {
        self.fg(Color::DarkBlue)
    }

    pub fn on_dark_blue(self) -> (r: Self)
        ensures
            r == (Style { bg: Some(Color::DarkBlue), ..self }),
    {
        self.bg(Color::DarkBlue)
    }

    pub fn magenta(self) -> (r: Self)
        ensures
            r == (Style { fg: Some(Color::Magenta), ..self }),
    {
        self.fg(Color::Magenta)
    }

    pub fn on_magenta(self) -> (r: Self)
        ensures
            r == (Style { bg: Some(Color::Magenta), ..self }),
    {
        self.bg(Color::Magenta)
    }

    pub fn dark_magenta(self) -> (r: Self)
        ensures
            r == (Style { fg: Some(Color::DarkMagenta), ..self }),
    {
        self.fg(Color::DarkMagenta)
    }

    pub fn on_dark_magenta(self) -> (r: Self)
        ensures
            r == (Style { bg: Some(Color::DarkMagenta), ..self }),
    {
        self.bg(Color::DarkMagenta)
    }

    pub fn cyan(self) -> (r: Self)
        ensures
            r == (Style { fg: Some(Color::Cyan), ..self }),
    {
        self.fg(Color::Cyan)
    }

    pub fn on_cyan(self) -> (r: Self)
        ensures
            r == (Style { bg: Some(Color::Cyan), ..self }),
    {
        self.bg(Color::Cyan)
    }

    pub fn dark_cyan(self) -> (r: Self)
        ensures
            r == (Style { fg: Some(Color::DarkCyan), ..self }),
    {
        self.fg(Color::DarkCyan)
    }

    pub fn on_dark_cyan(self) -> (r: Self)
        ensures
            r == (Style { bg: Some(Color::DarkCyan), ..self }),
    {
        self.bg(Color::DarkCyan)
    }

    pub fn white(self) -> (r: Self)
        ensures
            r == (Style { fg: Some(Color::White), ..self }),
    {
        self.fg(Color::White)
    }

    pub fn on_white(self) -> (r: Self)
        ensures
            r == (Style { bg: Some(Color::White), ..self }),
    {
        self.bg(Color::White)
    }

    pub fn grey(self) -> (r: Self)
        ensures
            r == (Style { fg: Some(Color::Grey), ..self }),
    {
        self.fg(Color::Grey)
    }

    pub fn on_grey(self) -> (r: Self)
        ensures
            r == (Style { bg: Some(Color::Grey), ..self }),
    {
        self.bg(Color::Grey)
    }
}

impl Default for Style {
    fn default() -> (r: Self)
        ensures
            r == (Style { fg: None, bg: None, attrs: Attributes { bits: 0 } }),
    {
        Style::new()
    }
}

} // verus!
