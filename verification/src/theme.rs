//! Color roles for the two presentation modes: a light/dark palette for a
//! windowed front end and a single fixed mapping for a terminal front end,
//! which has no native notion of light and dark mode.

use vstd::prelude::*;

verus! {

/// One color as an RGB triple.
#[derive(Clone, Copy, Debug, PartialEq, Eq, Structural)]
pub struct Rgb {
    pub red: u8,
    pub green: u8,
    pub blue: u8,
}

/// The semantic color roles a renderer draws with.
#[derive(Clone, Copy, Debug, PartialEq, Eq, Structural)]
pub struct Palette {
    /// Foreground text.
    pub text: Rgb,
    /// The main background.
    pub primary: Rgb,
    /// De-emphasized elements (shadows, inactive highlights).
    pub secondary: Rgb,
    /// Emphasized elements (selections, active highlights).
    pub accent: Rgb,
}

impl Palette {
    /// The concrete role colors for one mode: dark when `dark` is set,
    /// light otherwise.
    pub fn new(dark: bool) -> (p: Palette)
        ensures
            dark ==> p == dark_palette(),
            !dark ==> p == light_palette(),
    {
        if dark {
            Palette {
                text: Rgb { red: 220, green: 220, blue: 220 },
                primary: Rgb { red: 30, green: 30, blue: 30 },
                secondary: Rgb { red: 110, green: 110, blue: 110 },
                accent: Rgb { red: 0, green: 120, blue: 215 },
            }
        } else {
            Palette {
                text: Rgb { red: 40, green: 40, blue: 40 },
                primary: Rgb { red: 255, green: 255, blue: 255 },
                secondary: Rgb { red: 160, green: 160, blue: 160 },
                accent: Rgb { red: 0, green: 120, blue: 215 },
            }
        }
    }
}

/// The dark-mode role colors.
pub open spec fn dark_palette() -> Palette {
    Palette {
        text: Rgb { red: 220, green: 220, blue: 220 },
        primary: Rgb { red: 30, green: 30, blue: 30 },
        secondary: Rgb { red: 110, green: 110, blue: 110 },
        accent: Rgb { red: 0, green: 120, blue: 215 },
    }
}

/// The light-mode role colors.
pub open spec fn light_palette() -> Palette {
    Palette {
        text: Rgb { red: 40, green: 40, blue: 40 },
        primary: Rgb { red: 255, green: 255, blue: 255 },
        secondary: Rgb { red: 160, green: 160, blue: 160 },
        accent: Rgb { red: 0, green: 120, blue: 215 },
    }
}

/// The windowed front end's theme selector.
#[derive(Clone, Copy, Debug, PartialEq, Eq, Structural)]
pub enum Theme {
    Dark,
    Light,
}

impl Default for Theme {
    /// The default presentation mode is dark.
    fn default() -> (t: Theme)
        ensures
            t == Theme::Dark,
    {
        Theme::Dark
    }
}

/// The window-level colors a windowed renderer applies.
#[derive(Clone, Copy, Debug, PartialEq, Eq, Structural)]
pub struct Appearance {
    pub background: Rgb,
    pub text: Rgb,
}

impl Theme {
    /// The palette this theme selects.
    pub fn palette(&self) -> (p: Palette)
        ensures
            *self == Theme::Dark ==> p == dark_palette(),
            *self == Theme::Light ==> p == light_palette(),
    {
        match self {
            Theme::Dark => Palette::new(true),
            Theme::Light => Palette::new(false),
        }
    }

    /// The window background and default text color: the theme's primary
    /// role as background, its text role as foreground.
    pub fn appearance(&self) -> (a: Appearance)
        ensures
            a.background == self.spec_palette().primary,
            a.text == self.spec_palette().text,
    {
        let p = self.palette();
        Appearance { background: p.primary, text: p.text }
    }

    /// The palette this theme selects, as a spec-level value.
    pub open spec fn spec_palette(&self) -> Palette {
        match self {
            Theme::Dark => dark_palette(),
            Theme::Light => light_palette(),
        }
    }
}

/// How the editable text surface is drawn: a black field with slightly
/// rounded corners and no border.
#[derive(Clone, Copy, Debug, PartialEq, Eq, Structural)]
pub struct TextInputStyle {
    pub background: Rgb,
    /// Corner radius in pixels.
    pub border_radius: u8,
    /// Border width in pixels; 0 means no visible border.
    pub border_width: u8,
    pub icon_color: Rgb,
}

impl Theme {
    /// The editable text surface's style, the same in every state the
    /// surface can be in (active, focused, or disabled).
    pub fn text_input_style(&self) -> (s: TextInputStyle)
        ensures
            s == (TextInputStyle {
                background: Rgb { red: 0, green: 0, blue: 0 },
                border_radius: 4,
                border_width: 0,
                icon_color: Rgb { red: 0, green: 0, blue: 0 },
            }),
    {
        TextInputStyle {
            background: Rgb { red: 0, green: 0, blue: 0 },
            border_radius: 4,
            border_width: 0,
            icon_color: Rgb { red: 0, green: 0, blue: 0 },
        }
    }
}

/// A terminal cell color: either the terminal's own default or a concrete
/// RGB value.
#[derive(Clone, Copy, Debug, PartialEq, Eq, Structural)]
pub enum TerminalColor {
    TerminalDefault,
    Solid(Rgb),
}

/// The terminal renderer's role-to-color assignment.
#[derive(Clone, Copy, Debug, PartialEq, Eq, Structural)]
pub struct TerminalTheme {
    pub background: TerminalColor,
    pub highlight: TerminalColor,
    pub highlight_inactive: TerminalColor,
    pub highlight_text: TerminalColor,
    pub primary: TerminalColor,
    pub secondary: TerminalColor,
    pub shadow: TerminalColor,
    pub tertiary: TerminalColor,
    pub title_primary: TerminalColor,
    pub title_secondary: TerminalColor,
    pub view: TerminalColor,
}

/// The fixed terminal theme: the background keeps the terminal's default,
/// highlights take the dark palette's accent, de-emphasized roles its
/// secondary, all text roles its text color, and the view area its primary.
pub fn theme() -> (t: TerminalTheme)
    ensures
        t.background == TerminalColor::TerminalDefault,
        t.highlight == TerminalColor::Solid(dark_palette().accent),
        t.highlight_inactive == TerminalColor::Solid(dark_palette().secondary),
        t.highlight_text == TerminalColor::Solid(dark_palette().text),
        t.primary == TerminalColor::Solid(dark_palette().text),
        t.secondary == TerminalColor::Solid(dark_palette().text),
        t.shadow == TerminalColor::Solid(dark_palette().secondary),
        t.tertiary == TerminalColor::Solid(dark_palette().text),
        t.title_primary == TerminalColor::Solid(dark_palette().text),
        t.title_secondary == TerminalColor::Solid(dark_palette().text),
        t.view == TerminalColor::Solid(dark_palette().primary),
{
    let palette = Palette::new(true);
    TerminalTheme {
        background: TerminalColor::TerminalDefault,
        highlight: TerminalColor::Solid(palette.accent),
        highlight_inactive: TerminalColor::Solid(palette.secondary),
        highlight_text: TerminalColor::Solid(palette.text),
        primary: TerminalColor::Solid(palette.text),
        secondary: TerminalColor::Solid(palette.text),
        shadow: TerminalColor::Solid(palette.secondary),
        tertiary: TerminalColor::Solid(palette.text),
        title_primary: TerminalColor::Solid(palette.text),
        title_secondary: TerminalColor::Solid(palette.text),
        view: TerminalColor::Solid(palette.primary),
    }
}

} // verus!
