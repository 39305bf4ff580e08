//! Text styling.

use vstd::prelude::*;

verus! {

/// How text is written.
#[derive(Debug, Clone, Copy, Hash, PartialEq, Eq, Structural)]
pub struct Style {
    /// The foreground color of the text.
    pub foreground: Color,
    /// The background color of the text.
    pub background: Color,
    /// The attributes of the text.
    pub attributes: Attributes,
}

impl Style {
    /// Create a style.
    #[must_use]
    pub fn new(foreground: Color, background: Color, attributes: Attributes) -> (s: Self)
        ensures
            s == (Style { foreground, background, attributes }),
    {
        Self { foreground, background, attributes }
    }

    /// The style that every blank cell has: default colors and no attributes.
    pub open spec fn plain() -> Style {
        Style {
            foreground: Color::Default,
            background: Color::Default,
            attributes: Attributes::plain(),
        }
    }
}

impl Default for Style {
    /// Default colors and no attributes.
    fn default() -> (s: Self)
        ensures
            s == Style::plain(),
    {
        Self {
            foreground: Color::Default,
            background: Color::Default,
            attributes: Attributes::new(),
        }
    }
}

/// A color.
#[derive(Debug, Clone, Copy, Hash, PartialEq, Eq, Structural)]
pub enum Color {
    /// The terminal's default color.
    Default,
    /// Black. Corresponds to the ANSI color black.
    Black,
    /// Dark gray. Corresponds to the ANSI color bright black.
    DarkGray,
    /// Light gray. Corresponds to the ANSI color white.
    LightGray,
    /// White. Corresponds to the ANSI color bright white.
    White,
    /// Red. Corresponds to the ANSI color bright red.
    Red,
    /// Dark Red. Corresponds to the ANSI color red.
    DarkRed,
    /// Green. Corresponds to the ANSI color bright green.
    Green,
    /// Dark Green. Corresponds to the ANSI color green.
    DarkGreen,
    /// Yellow. Corresponds to the ANSI color bright yellow.
    Yellow,
    /// Dark Yellow. Corresponds to the ANSI color yellow.
    DarkYellow,
    /// Blue. Corresponds to the ANSI color bright blue.
    Blue,
    /// Dark Blue. Corresponds to the ANSI color blue.
    DarkBlue,
    /// Magenta. Corresponds to the ANSI color bright magenta.
    Magenta,
    /// Dark Magenta. Corresponds to the ANSI color magenta.
    DarkMagenta,
    /// Cyan. Corresponds to the ANSI color bright cyan.
    Cyan,
    /// Dark Cyan. Corresponds to the ANSI color cyan.
    DarkCyan,
    /// An ANSI color.
    AnsiValue(AnsiColor),
    /// A full 24-bit RGB color.
    Rgb(Rgb),
}

impl Color {
    /// The color that an ANSI palette index stands for: a named color below 16, the
    /// palette entry itself from 16 on.
    pub open spec fn of_ansi(value: u8) -> Color {
        if value == 0 {
            Color::Black
        } else if value == 1 {
            Color::DarkRed
        } else if value == 2 {
            Color::DarkGreen
        } else if value == 3 {
            Color::DarkYellow
        } else if value == 4 {
            Color::DarkBlue
        } else if value == 5 {
            Color::DarkMagenta
        } else if value == 6 {
            Color::DarkCyan
        } else if value == 7 {
            Color::LightGray
        } else if value == 8 {
            Color::DarkGray
        } else if value == 9 {
            Color::Red
        } else if value == 10 {
            Color::Green
        } else if value == 11 {
            Color::Yellow
        } else if value == 12 {
            Color::Blue
        } else if value == 13 {
            Color::Magenta
        } else if value == 14 {
            Color::Cyan
        } else if value == 15 {
            Color::White
        } else {
            Color::AnsiValue(AnsiColor::with_value(value))
        }
    }

    /// The darker named color, where there is one; any other color unchanged.
    pub open spec fn darkened(self) -> Color {
        match self {
            Color::Black | Color::DarkGray => Color::Black,
            Color::LightGray => Color::DarkGray,
            Color::White => Color::LightGray,
            Color::Red | Color::DarkRed => Color::DarkRed,
            Color::Green | Color::DarkGreen => Color::DarkGreen,
            Color::Yellow | Color::DarkYellow => Color::DarkYellow,
            Color::Blue | Color::DarkBlue => Color::DarkBlue,
            Color::Magenta | Color::DarkMagenta => Color::DarkMagenta,
            Color::Cyan | Color::DarkCyan => Color::DarkCyan,
            other => other,
        }
    }

    /// Create a color from an ANSI value.
    ///
    /// If the value is < 16 it will be mapped to the named color variants, otherwise it will be an
    /// `AnsiColor`.
    #[must_use]
    pub fn new_ansi(value: u8) -> (c: Self)
        ensures
            c == Color::of_ansi(value),
    {
        match value {
            0 => Self::Black,
            1 => Self::DarkRed,
            2 => Self::DarkGreen,
            3 => Self::DarkYellow,
            4 => Self::DarkBlue,
            5 => Self::DarkMagenta,
            6 => Self::DarkCyan,
            7 => Self::LightGray,
            8 => Self::DarkGray,
            9 => Self::Red,
            10 => Self::Green,
            11 => Self::Yellow,
            12 => Self::Blue,
            13 => Self::Magenta,
            14 => Self::Cyan,
            15 => Self::White,
            _ => Self::AnsiValue(AnsiColor::new(value)),
        }
    }

    /// Darken a color if it is a named color variant.
    #[must_use]
    pub fn darken(self) -> (c: Self)
        ensures
            c == self.darkened(),
    {
        match self {
            Self::Black | Self::DarkGray => Self::Black,
            Self::LightGray => Self::DarkGray,
            Self::White => Self::LightGray,
            Self::Red | Self::DarkRed => Self::DarkRed,
            Self::Green | Self::DarkGreen => Self::DarkGreen,
            Self::Yellow | Self::DarkYellow => Self::DarkYellow,
            Self::Blue | Self::DarkBlue => Self::DarkBlue,
            Self::Magenta | Self::DarkMagenta => Self::DarkMagenta,
            Self::Cyan | Self::DarkCyan => Self::DarkCyan,
            other => other,
        }
    }
}

impl Default for Color {
    /// The terminal's default color.
    fn default() -> (c: Self)
        ensures
            c == Color::Default,
    {
        Self::Default
    }
}

impl vstd::std_specs::convert::FromSpecImpl<AnsiColor> for Color {
    open spec fn obeys_from_spec() -> bool {
        true
    }

    open spec fn from_spec(color: AnsiColor) -> Self {
        Color::AnsiValue(color)
    }
}

impl From<AnsiColor> for Color {
    /// The palette entry as a color.
    fn from(color: AnsiColor) -> (c: Self) {
        Self::AnsiValue(color)
    }
}

impl vstd::std_specs::convert::FromSpecImpl<Rgb> for Color {
    open spec fn obeys_from_spec() -> bool {
        true
    }

    open spec fn from_spec(rgb: Rgb) -> Self {
        Color::Rgb(rgb)
    }
}

impl From<Rgb> for Color {
    /// The 24-bit color as a color.
    fn from(rgb: Rgb) -> (c: Self) {
        Self::Rgb(rgb)
    }
}

/// An ANSI value color.
///
/// This can either be an RGB color with each part being 6 values, or it can be a grayscale color
/// from [0, 26). White and black are treated as both RGB and grayscale colors; there are also
/// shades of gray treated only as RGB colors and vice versa, because they cannot be fully
/// represented in the other format.
///
/// The value held is an index into the 256-color palette and is never below 16: the
/// first sixteen entries are the named colors of [`Color`].
#[derive(Debug, Clone, Copy, Hash, PartialEq, Eq, Structural)]
pub struct AnsiColor(u8);

impl AnsiColor {
    #[verifier::type_invariant]
    spec fn above_named_colors(self) -> bool {
        self.0 >= 16
    }

    /// The palette index.
    pub closed spec fn value(self) -> u8 {
        self.0
    }

    /// The color with the given palette index.
    pub closed spec fn with_value(value: u8) -> AnsiColor {
        AnsiColor(value)
    }

    /// A color is its palette index and nothing more.
    pub broadcast proof fn lemma_value(value: u8)
        ensures
            (#[trigger] AnsiColor::with_value(value)).value() == value,
    {
    }

    /// The palette index of the color cube entry with the given components.
    pub open spec fn cube_index(r: u8, g: u8, b: u8) -> int {
        16 + 36 * r + 6 * g + b
    }

    /// The palette index of a grayscale shade between 0 (black) and 25 (white).
    pub open spec fn shade_index(shade: u8) -> int {
        if shade == 0 {
            16
        } else if shade == 25 {
            0xE7
        } else {
            0xE7 + shade
        }
    }

    /// Create an ANSI color from its numerical value, which must be at least 16.
    #[must_use]
    pub fn new(value: u8) -> (c: Self)
        requires
            value >= 16,
        ensures
            c == AnsiColor::with_value(value),
    {
        Self(value)
    }

    /// Create an ANSI color from its RGB components, each of which must be at most 5.
    #[must_use]
    pub fn new_rgb(r: u8, g: u8, b: u8) -> (c: Self)
        requires
            r <= 5,
            g <= 5,
            b <= 5,
        ensures
            c.value() == Self::cube_index(r, g, b),
    {
        Self(16 + 36 * r + 6 * g + b)
    }

    /// Create an ANSI color grayscale color. 0 is black, 25 is white; the shade must be
    /// below 26.
    #[must_use]
    pub fn new_grayscale(shade: u8) -> (c: Self)
        requires
            shade < 26,
        ensures
            c.value() == Self::shade_index(shade),
    {
        if shade == 0 {
            Self(16)
        } else if shade == 25 {
            Self(0xE7)
        } else {
            Self(0xE7 + shade)
        }
    }

    /// Get the ANSI value of this color, which is at least 16.
    #[must_use]
    pub fn get(self) -> (value: u8)
        ensures
            value == self.value(),
            value >= 16,
    {
        proof {
            use_type_invariant(&self);
        }
        self.0
    }

    /// Set the ANSI value of this color, which must be at least 16.
    pub fn set(&mut self, value: u8)
        requires
            value >= 16,
        ensures
            *final(self) == AnsiColor::with_value(value),
    {
        self.0 = value;
    }

    /// Get the RGB components of the color, if the color is one of the color cube.
    ///
    /// All returned values are at most 5.
    #[must_use]
    pub fn rgb(self) -> (r: Option<(u8, u8, u8)>)
        ensures
            self.value() >= 232 ==> r is None,
            self.value() < 232 ==> r == Some(
                (
                    ((self.value() - 16) / 36) as u8,
                    ((self.value() - 16) % 36 / 6) as u8,
                    ((self.value() - 16) % 6) as u8,
                ),
            ),
            r matches Some((red, green, blue)) ==> red <= 5 && green <= 5 && blue <= 5
                && Self::cube_index(red, green, blue) == self.value(),
    {
        proof {
            use_type_invariant(&self);
        }
        let value = self.0 - 16;
        if value >= 6 * 6 * 6 {
            return None;
        }
        Some((value / 36, value % 36 / 6, value % 6))
    }

    /// Get the grayscale shade of the color, if the color is grayscale.
    ///
    /// The returned value is below 26.
    #[must_use]
    pub fn grayscale(self) -> (r: Option<u8>)
        ensures
            self.value() == 16 ==> r == Some(0u8),
            self.value() == 0xE7 ==> r == Some(25u8),
            self.value() >= 0xE8 ==> r == Some((self.value() - 0xE7) as u8),
            self.value() != 16 && self.value() < 0xE7 ==> r is None,
            r matches Some(shade) ==> shade < 26 && Self::shade_index(shade) == self.value(),
    {
        if self.0 == 16 {
            Some(0)
        } else if self.0 == 0xE7 {
            Some(25)
        } else if self.0 >= 0xE8 {
            Some(self.0 - 0xE7)
        } else {
            None
        }
    }
}

impl vstd::std_specs::convert::FromSpecImpl<AnsiColor> for u8 {
    open spec fn obeys_from_spec() -> bool {
        true
    }

    open spec fn from_spec(ansi: AnsiColor) -> Self {
        ansi.value()
    }
}

impl From<AnsiColor> for u8 {
    /// The palette index of the color.
    fn from(ansi: AnsiColor) -> (value: Self) {
        ansi.get()
    }
}

/// A full 24-bit RGB color.
#[derive(Debug, Clone, Copy, Hash, PartialEq, Eq, Structural)]
pub struct Rgb {
    /// The red component.
    pub r: u8,
    /// The green component.
    pub g: u8,
    /// The blue component.
    pub b: u8,
}

impl Rgb {
    /// Creates a new RGB color.
    #[must_use]
    pub fn new(r: u8, g: u8, b: u8) -> (c: Self)
        ensures
            c == (Rgb { r, g, b }),
    {
        Self { r, g, b }
    }

    /// Gets the opposite color: each component taken from 255.
    #[must_use]
    pub fn opposite(self) -> (c: Self)
        ensures
            c.r == 255 - self.r,
            c.g == 255 - self.g,
            c.b == 255 - self.b,
    {
        Self { r: u8::MAX - self.r, g: u8::MAX - self.g, b: u8::MAX - self.b }
    }
}

/// Attributes of text. Not all of these attributes are supported by all terminals.
#[derive(Debug, Clone, Copy, Hash, PartialEq, Eq, Structural)]
#[non_exhaustive]
pub struct Attributes {
    /// The text intensity.
    pub intensity: Intensity,
    /// Whether the text is emphasized.
    pub italic: bool,
    /// Whether the text is underlined.
    pub underlined: bool,
    /// Whether the text blinks. Not widely supported.
    pub blinking: bool,
    /// Whether the text is crossed out. Not widely supported.
    pub crossed_out: bool,
}

impl Attributes {
    /// Normal intensity and nothing else set.
    pub open spec fn plain() -> Attributes {
        Attributes {
            intensity: Intensity::Normal,
            italic: false,
            underlined: false,
            blinking: false,
            crossed_out: false,
        }
    }

    /// Default attributes.
    #[must_use]
    pub fn new() -> (a: Self)
        ensures
            a == Attributes::plain(),
    {
        Self {
            intensity: Intensity::Normal,
            italic: false,
            underlined: false,
            blinking: false,
            crossed_out: false,
        }
    }

    /// Make the intensity bold.
    #[must_use]
    pub fn bold(self) -> (a: Self)
        ensures
            a == (Attributes { intensity: Intensity::Bold, ..self }),
    {
        Self { intensity: Intensity::Bold, ..self }
    }

    /// Make the intensity dim.
    #[must_use]
    pub fn dim(self) -> (a: Self)
        ensures
            a == (Attributes { intensity: Intensity::Dim, ..self }),
    {
        Self { intensity: Intensity::Dim, ..self }
    }

    /// Make the text italic.
    #[must_use]
    pub fn italic(self) -> (a: Self)
        ensures
            a == (Attributes { italic: true, ..self }),
    {
        Self { italic: true, ..self }
    }

    /// Underline the text.
    #[must_use]
    pub fn underlined(self) -> (a: Self)
        ensures
            a == (Attributes { underlined: true, ..self }),
    {
        Self { underlined: true, ..self }
    }

    /// Make the text blink.
    #[must_use]
    pub fn blinking(self) -> (a: Self)
        ensures
            a == (Attributes { blinking: true, ..self }),
    {
        Self { blinking: true, ..self }
    }

    /// Cross out the text.
    #[must_use]
    pub fn crossed_out(self) -> (a: Self)
        ensures
            a == (Attributes { crossed_out: true, ..self }),
    {
        Self { crossed_out: true, ..self }
    }
}

impl Default for Attributes {
    /// Normal intensity and nothing else set.
    fn default() -> (a: Self)
        ensures
            a == Attributes::plain(),
    {
        Self::new()
    }
}

/// The intensity of text.
#[derive(Debug, Clone, Copy, Hash, PartialEq, Eq, PartialOrd, Ord, Structural)]
pub enum Intensity {
    /// Less intense text. Not widely supported.
    Dim,
    /// Normal text intensity.
    Normal,
    /// More intense text.
    Bold,
}

impl Default for Intensity {
    /// Normal text intensity.
    fn default() -> (i: Self)
        ensures
            i == Intensity::Normal,
    {
        Self::Normal
    }
}

} // verus!
