//! The dark widget theme, stated as plain data.
//!
//! Every color is given by its four 8-bit channels, and every widget style
//! is a record of colors and small integer measurements.  A UI layer
//! converts these records into the color and style types of its own toolkit;
//! nothing here draws anything.

use vstd::prelude::*;

verus! {

/// A color as four 8-bit channels; `a` is opacity, `255` fully opaque.
#[derive(Clone, Copy, Debug, PartialEq, Eq, Structural)]
pub struct Color {
    pub r: u8,
    pub g: u8,
    pub b: u8,
    pub a: u8,
}

/// The dark palette's surface color.
pub open spec fn surface() -> Color {
    Color { r: 0x40, g: 0x44, b: 0x4B, a: 255 }
}

/// The dark palette's accent color.
pub open spec fn accent() -> Color {
    Color { r: 0x6F, g: 0xFF, b: 0xE9, a: 255 }
}

/// The dark palette's active color.
pub open spec fn active() -> Color {
    Color { r: 0x72, g: 0x89, b: 0xDA, a: 255 }
}

/// The dark palette's hover color.
pub open spec fn hovered() -> Color {
    Color { r: 0x67, g: 0x7B, b: 0xC4, a: 255 }
}

/// `c` with its opacity replaced by `a`.
pub open spec fn with_alpha(c: Color, a: u8) -> Color {
    Color { a, ..c }
}

/// A fully transparent black.
pub open spec fn transparent() -> Color {
    Color { r: 0, g: 0, b: 0, a: 0 }
}

/// Opaque white.
pub open spec fn white() -> Color {
    Color { r: 255, g: 255, b: 255, a: 255 }
}

/// The gray used for placeholder text.
pub open spec fn placeholder_gray() -> Color {
    Color { r: 102, g: 102, b: 102, a: 255 }
}

/// The light gray of a slider handle while it is dragged.
pub open spec fn dragging_gray() -> Color {
    Color { r: 217, g: 217, b: 217, a: 255 }
}

/// How a container is drawn.
#[derive(Clone, Copy, Debug, PartialEq, Eq)]
pub struct ContainerStyle {
    pub background: Color,
    pub text_color: Color,
    pub border_radius: u16,
    pub border_width: u16,
    pub border_color: Color,
}

/// How a text input is drawn.
#[derive(Clone, Copy, Debug, PartialEq, Eq)]
pub struct TextInputStyle {
    pub background: Color,
    pub border_radius: u16,
    pub border_width: u16,
    pub border_color: Color,
}

/// The round handle of a slider.
#[derive(Clone, Copy, Debug, PartialEq, Eq)]
pub struct SliderHandle {
    pub radius: u16,
    pub color: Color,
    pub border_width: u16,
    pub border_color: Color,
}

/// How a slider is drawn: the two rail colors and the handle.
#[derive(Clone, Copy, Debug, PartialEq, Eq)]
pub struct SliderStyle {
    pub rail_top: Color,
    pub rail_bottom: Color,
    pub handle: SliderHandle,
}

/// How a button is drawn.
#[derive(Clone, Copy, Debug, PartialEq, Eq)]
pub struct ButtonStyle {
    pub background: Color,
    pub border_radius: u16,
    pub border_width: u16,
    pub border_color: Color,
    pub text_color: Color,
}

/// How a progress bar is drawn.
#[derive(Clone, Copy, Debug, PartialEq, Eq)]
pub struct ProgressBarStyle {
    pub background: Color,
    pub bar: Color,
    pub border_radius: u16,
}

/// How a toggler is drawn; the borders are optional and this theme draws
/// none.
#[derive(Clone, Copy, Debug, PartialEq, Eq)]
pub struct TogglerStyle {
    pub background: Color,
    pub background_border: Option<Color>,
    pub foreground: Color,
    pub foreground_border: Option<Color>,
}

/// How a horizontal rule is drawn; `fill_mode_padding` is the padding of
/// its shortened fill.
#[derive(Clone, Copy, Debug, PartialEq, Eq)]
pub struct RuleStyle {
    pub color: Color,
    pub width: u16,
    pub radius: u16,
    pub fill_mode_padding: u16,
}

/// A container of the dark theme.
pub open spec fn container_style() -> ContainerStyle {
    ContainerStyle {
        background: Color { r: 0x36, g: 0x39, b: 0x3F, a: 255 },
        text_color: white(),
        border_radius: 0,
        border_width: 0,
        border_color: transparent(),
    }
}

/// A text input of the dark theme, at rest.
pub open spec fn text_input_active() -> TextInputStyle {
    TextInputStyle {
        background: surface(),
        border_radius: 2,
        border_width: 0,
        border_color: transparent(),
    }
}

/// A focused text input: at-rest look with an accent border.
pub open spec fn text_input_focused() -> TextInputStyle {
    TextInputStyle { border_width: 1, border_color: accent(), ..text_input_active() }
}

/// A hovered text input: focused look with the border faded.
pub open spec fn text_input_hovered() -> TextInputStyle {
    TextInputStyle { border_color: with_alpha(accent(), 77), ..text_input_focused() }
}

/// A slider of the dark theme, at rest.
pub open spec fn slider_active() -> SliderStyle {
    SliderStyle {
        rail_top: active(),
        rail_bottom: with_alpha(active(), 26),
        handle: SliderHandle {
            radius: 9,
            color: active(),
            border_width: 0,
            border_color: transparent(),
        },
    }
}

/// A hovered slider: at-rest look with the handle in the hover color.
pub open spec fn slider_hovered() -> SliderStyle {
    SliderStyle {
        handle: SliderHandle { color: hovered(), ..slider_active().handle },
        ..slider_active()
    }
}

/// A dragged slider: at-rest look with a light gray handle.
pub open spec fn slider_dragging() -> SliderStyle {
    SliderStyle {
        handle: SliderHandle { color: dragging_gray(), ..slider_active().handle },
        ..slider_active()
    }
}

/// A button of the dark theme, at rest.
pub open spec fn button_active() -> ButtonStyle {
    ButtonStyle {
        background: active(),
        border_radius: 3,
        border_width: 0,
        border_color: transparent(),
        text_color: white(),
    }
}

/// A hovered button: at-rest look with the hover background.
pub open spec fn button_hovered() -> ButtonStyle {
    ButtonStyle { background: hovered(), ..button_active() }
}

/// A pressed button: hovered look with a white border.
pub open spec fn button_pressed() -> ButtonStyle {
    ButtonStyle { border_width: 1, border_color: white(), ..button_hovered() }
}

/// The progress bar of the dark theme.
pub open spec fn progress_bar_style() -> ProgressBarStyle {
    ProgressBarStyle { background: surface(), bar: active(), border_radius: 10 }
}

/// A toggler of the dark theme: colors depend on whether it is switched
/// on.
pub open spec fn toggler_active(is_active: bool) -> TogglerStyle {
    TogglerStyle {
        background: if is_active {
            active()
        } else {
            surface()
        },
        background_border: Option::None,
        foreground: if is_active {
            white()
        } else {
            active()
        },
        foreground_border: Option::None,
    }
}

/// A hovered toggler: the at-rest look with the foreground half faded.
pub open spec fn toggler_hovered(is_active: bool) -> TogglerStyle {
    TogglerStyle {
        foreground: with_alpha(
            if is_active {
                white()
            } else {
                active()
            },
            128,
        ),
        ..toggler_active(is_active)
    }
}

/// The horizontal rule of the dark theme.
pub open spec fn rule_style() -> RuleStyle {
    RuleStyle { color: surface(), width: 2, radius: 1, fill_mode_padding: 15 }
}

/// The theme the window is drawn with; only a dark theme exists.
#[derive(Clone, Copy, Debug, PartialEq, Eq, Structural)]
pub enum Theme {
    Dark,
}

impl Default for Theme {
    /// The theme used when none is chosen.
    fn default() -> (t: Theme)
        ensures
            t == Theme::Dark,
    {
        Theme::Dark
    }
}

/// The container style sheet of the dark theme.
#[derive(Clone, Copy, Debug, PartialEq, Eq)]
pub struct Container;

impl Container {
    pub fn style(&self) -> (s: ContainerStyle)
        ensures
            s == container_style(),
    {
        ContainerStyle {
            background: Color { r: 0x36, g: 0x39, b: 0x3F, a: 255 },
            text_color: Color { r: 255, g: 255, b: 255, a: 255 },
            border_radius: 0,
            border_width: 0,
            border_color: Color { r: 0, g: 0, b: 0, a: 0 },
        }
    }
}

/// The text-input style sheet of the dark theme.
#[derive(Clone, Copy, Debug, PartialEq, Eq)]
pub struct TextInput;

impl TextInput {
    pub fn active(&self) -> (s: TextInputStyle)
        ensures
            s == text_input_active(),
    {
        TextInputStyle {
            background: Color { r: 0x40, g: 0x44, b: 0x4B, a: 255 },
            border_radius: 2,
            border_width: 0,
            border_color: Color { r: 0, g: 0, b: 0, a: 0 },
        }
    }

    pub fn focused(&self) -> (s: TextInputStyle)
        ensures
            s == text_input_focused(),
    {
        let mut s = self.active();
        s.border_width = 1;
        s.border_color = Color { r: 0x6F, g: 0xFF, b: 0xE9, a: 255 };
        s
    }

    pub fn hovered(&self) -> (s: TextInputStyle)
        ensures
            s == text_input_hovered(),
    {
        let mut s = self.focused();
        s.border_color = Color { r: 0x6F, g: 0xFF, b: 0xE9, a: 77 };
        s
    }

    pub fn placeholder_color(&self) -> (c: Color)
        ensures
            c == placeholder_gray(),
    {
        Color { r: 102, g: 102, b: 102, a: 255 }
    }

    pub fn value_color(&self) -> (c: Color)
        ensures
            c == white(),
    {
        Color { r: 255, g: 255, b: 255, a: 255 }
    }

    pub fn selection_color(&self) -> (c: Color)
        ensures
            c == active(),
    {
        Color { r: 0x72, g: 0x89, b: 0xDA, a: 255 }
    }
}

/// The slider style sheet of the dark theme.
#[derive(Clone, Copy, Debug, PartialEq, Eq)]
pub struct Slider;

impl Slider {
    pub fn active(&self) -> (s: SliderStyle)
        ensures
            s == slider_active(),
    {
        SliderStyle {
            rail_top: Color { r: 0x72, g: 0x89, b: 0xDA, a: 255 },
            rail_bottom: Color { r: 0x72, g: 0x89, b: 0xDA, a: 26 },
            handle: SliderHandle {
                radius: 9,
                color: Color { r: 0x72, g: 0x89, b: 0xDA, a: 255 },
                border_width: 0,
                border_color: Color { r: 0, g: 0, b: 0, a: 0 },
            },
        }
    }

    pub fn hovered(&self) -> (s: SliderStyle)
        ensures
            s == slider_hovered(),
    {
        let mut s = self.active();
        s.handle.color = Color { r: 0x67, g: 0x7B, b: 0xC4, a: 255 };
        s
    }

    pub fn dragging(&self) -> (s: SliderStyle)
        ensures
            s == slider_dragging(),
    {
        let mut s = self.active();
        s.handle.color = Color { r: 217, g: 217, b: 217, a: 255 };
        s
    }
}

/// The button style sheet of the dark theme.
#[derive(Clone, Copy, Debug, PartialEq, Eq)]
pub struct Button;

impl Button {
    pub fn active(&self) -> (s: ButtonStyle)
        ensures
            s == button_active(),
    {
        ButtonStyle {
            background: Color { r: 0x72, g: 0x89, b: 0xDA, a: 255 },
            border_radius: 3,
            border_width: 0,
            border_color: Color { r: 0, g: 0, b: 0, a: 0 },
            text_color: Color { r: 255, g: 255, b: 255, a: 255 },
        }
    }

    pub fn hovered(&self) -> (s: ButtonStyle)
        ensures
            s == button_hovered(),
    {
        let mut s = self.active();
        s.background = Color { r: 0x67, g: 0x7B, b: 0xC4, a: 255 };
        s
    }

    pub fn pressed(&self) -> (s: ButtonStyle)
        ensures
            s == button_pressed(),
    {
        let mut s = self.hovered();
        s.border_width = 1;
        s.border_color = Color { r: 255, g: 255, b: 255, a: 255 };
        s
    }
}

/// The progress-bar style sheet of the dark theme.
#[derive(Clone, Copy, Debug, PartialEq, Eq)]
pub struct ProgressBar;

impl ProgressBar {
    pub fn style(&self) -> (s: ProgressBarStyle)
        ensures
            s == progress_bar_style(),
    {
        ProgressBarStyle {
            background: Color { r: 0x40, g: 0x44, b: 0x4B, a: 255 },
            bar: Color { r: 0x72, g: 0x89, b: 0xDA, a: 255 },
            border_radius: 10,
        }
    }
}

/// The toggler style sheet of the dark theme.
#[derive(Clone, Copy, Debug, PartialEq, Eq)]
pub struct Toggler;

impl Toggler {
    pub fn active(&self, is_active: bool) -> (s: TogglerStyle)
        ensures
            s == toggler_active(is_active),
    {
        TogglerStyle {
            background: if is_active {
                Color { r: 0x72, g: 0x89, b: 0xDA, a: 255 }
            } else {
                Color { r: 0x40, g: 0x44, b: 0x4B, a: 255 }
            },
            background_border: None,
            foreground: if is_active {
                Color { r: 255, g: 255, b: 255, a: 255 }
            } else {
                Color { r: 0x72, g: 0x89, b: 0xDA, a: 255 }
            },
            foreground_border: None,
        }
    }

    pub fn hovered(&self, is_active: bool) -> (s: TogglerStyle)
        ensures
            s == toggler_hovered(is_active),
    {
        let mut s = self.active(is_active);
        s.foreground = if is_active {
            Color { r: 255, g: 255, b: 255, a: 128 }
        } else {
            Color { r: 0x72, g: 0x89, b: 0xDA, a: 128 }
        };
        s
    }
}

/// The rule style sheet of the dark theme.
#[derive(Clone, Copy, Debug, PartialEq, Eq)]
pub struct Rule;

impl Rule {
    pub fn style(&self) -> (s: RuleStyle)
        ensures
            s == rule_style(),
    {
        RuleStyle {
            color: Color { r: 0x40, g: 0x44, b: 0x4B, a: 255 },
            width: 2,
            radius: 1,
            fill_mode_padding: 15,
        }
    }
}

impl Theme {
    /// The container style sheet this theme selects.
    pub fn container(&self) -> (c: Container)
        ensures
            c == Container,
    {
        match self {
            Theme::Dark => Container,
        }
    }

    /// The text-input style sheet this theme selects.
    pub fn text_input(&self) -> (c: TextInput)
        ensures
            c == TextInput,
    {
        match self {
            Theme::Dark => TextInput,
        }
    }

    /// The slider style sheet this theme selects.
    pub fn slider(&self) -> (c: Slider)
        ensures
            c == Slider,
    {
        match self {
            Theme::Dark => Slider,
        }
    }

    /// The button style sheet this theme selects.
    pub fn button(&self) -> (c: Button)
        ensures
            c == Button,
    {
        match self {
            Theme::Dark => Button,
        }
    }

    /// The progress-bar style sheet this theme selects.
    pub fn progress_bar(&self) -> (c: ProgressBar)
        ensures
            c == ProgressBar,
    {
        match self {
            Theme::Dark => ProgressBar,
        }
    }

    /// The toggler style sheet this theme selects.
    pub fn toggler(&self) -> (c: Toggler)
        ensures
            c == Toggler,
    {
        match self {
            Theme::Dark => Toggler,
        }
    }

    /// The rule style sheet this theme selects.
    pub fn rule(&self) -> (c: Rule)
        ensures
            c == Rule,
    {
        match self {
            Theme::Dark => Rule,
        }
    }
}

} // verus!
