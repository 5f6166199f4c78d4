use vstd::prelude::*;

verus! {

/// An RGBA color with 8-bit channels. Compared exactly, channel by
/// channel, never with a tolerance.
#[derive(Clone, Copy, PartialEq, Eq, Structural, Debug)]
pub struct Color {
    pub r: u8,
    pub g: u8,
    pub b: u8,
    pub a: u8,
}

pub open spec fn spec_white() -> Color {
    Color { r: 255, g: 255, b: 255, a: 255 }
}

pub open spec fn spec_black() -> Color {
    Color { r: 0, g: 0, b: 0, a: 255 }
}

pub open spec fn spec_grey() -> Color {
    Color { r: 128, g: 128, b: 128, a: 255 }
}

/// The three color channels of a style. Each is optional: an absent
/// channel falls back to the default style's channel.
#[derive(Clone, Copy, PartialEq, Eq, Structural, Debug)]
pub struct Colors {
    pub foreground: Option<Color>,
    pub background: Option<Color>,
    pub special: Option<Color>,
}

impl Colors {
    pub fn new(foreground: Option<Color>, background: Option<Color>, special: Option<Color>) -> (r: Colors)
        ensures
            r == (Colors { foreground, background, special }),
    {
        Colors { foreground, background, special }
    }

    /// A default palette has every channel present, so that fallback
    /// resolution always finds a color.
    pub open spec fn complete(self) -> bool {
        &&& self.foreground is Some
        &&& self.background is Some
        &&& self.special is Some
    }
}

/// The five decoration styles an underlined cell can ask for.
#[derive(Clone, Copy, PartialEq, Eq, Structural, Debug)]
pub enum UnderlineVariant {
    Underline,
    DoubleUnderline,
    CurlyUnderline,
    DashedUnderline,
    DottedUnderline,
}

/// Per-cell styling: colors, blend level, decoration flags. Immutable
/// once constructed; cells share instances through `Arc`.
#[derive(Clone, Copy, PartialEq, Eq, Structural, Debug)]
pub struct Style {
    pub colors: Colors,
    /// 0 means fully opaque; 1 to 100 mean partially transparent.
    pub blend: u8,
    pub underline: Option<UnderlineVariant>,
    pub strikethrough: bool,
}

/// Resolve one optional channel against the already-resolved default.
pub open spec fn spec_resolve_color(channel: Option<Color>, default: Color) -> Color {
    match channel {
        Some(c) => c,
        None => default,
    }
}

impl Style {
    pub fn new(colors: Colors) -> (r: Style)
        ensures
            r == (Style { colors, blend: 0, underline: None, strikethrough: false }),
    {
        Style { colors, blend: 0, underline: None, strikethrough: false }
    }

    /// A style is well formed when its blend level stays within the
    /// 0 to 100 percent range.
    pub open spec fn wf(self) -> bool {
        self.blend <= 100
    }

    pub open spec fn spec_foreground(self, default: Colors) -> Color {
        spec_resolve_color(self.colors.foreground, default.foreground.unwrap())
    }

    pub open spec fn spec_background(self, default: Colors) -> Color {
        spec_resolve_color(self.colors.background, default.background.unwrap())
    }

    pub open spec fn spec_special(self, default: Colors) -> Color {
        spec_resolve_color(self.colors.special, default.special.unwrap())
    }

    /// The effective foreground color, falling back to the default palette.
    pub fn foreground(&self, default: &Colors) -> (r: Color)
        requires
            default.foreground is Some,
        ensures
            r == self.spec_foreground(*default),
    {
        match self.colors.foreground {
            Some(c) => c,
            None => default.foreground.unwrap(),
        }
    }

    /// The effective background color, falling back to the default palette.
    pub fn background(&self, default: &Colors) -> (r: Color)
        requires
            default.background is Some,
        ensures
            r == self.spec_background(*default),
    {
        match self.colors.background {
            Some(c) => c,
            None => default.background.unwrap(),
        }
    }

    /// The effective special (decoration) color, falling back to the
    /// default palette.
    pub fn special(&self, default: &Colors) -> (r: Color)
        requires
            default.special is Some,
        ensures
            r == self.spec_special(*default),
    {
        match self.colors.special {
            Some(c) => c,
            None => default.special.unwrap(),
        }
    }
}

} // verus!
