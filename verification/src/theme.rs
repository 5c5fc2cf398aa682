//! Colors in one place. `btop` is the default look, `mono` turns color off.
use vstd::prelude::*;

use crate::config::ThemeName;
use crate::text::same;

verus! {

#[derive(Debug, Clone, Copy, PartialEq, Eq, Structural)]
pub enum Color {
    /// The terminal's own color.
    Reset,
    White,
    /// One of the terminal's 256 colors.
    Indexed(u8),
}

/// How a text is drawn: its color, if it has one of its own, and its modifiers.
#[derive(Debug, Clone, Copy, PartialEq, Eq, Structural)]
pub struct Style {
    pub color: Option<Color>,
    pub bold: bool,
    pub dim: bool,
    pub reversed: bool,
}

/// The style that changes nothing.
pub open spec fn plain_style() -> Style {
    Style { color: None, bold: false, dim: false, reversed: false }
}

/// The style of a color and nothing else.
pub open spec fn colored(color: Color) -> Style {
    Style { color: Some(color), bold: false, dim: false, reversed: false }
}

impl Style {
    pub fn plain() -> (r: Self)
        ensures
            r == plain_style(),
    {
        Style { color: None, bold: false, dim: false, reversed: false }
    }

    /// This style with another color.
    pub fn fg(self, color: Color) -> (r: Self)
        ensures
            r == (Style { color: Some(color), ..self }),
    {
        Style { color: Some(color), ..self }
    }

    /// This style in bold.
    pub fn bold(self) -> (r: Self)
        ensures
            r == (Style { bold: true, ..self }),
    {
        Style { bold: true, ..self }
    }

    /// This style dimmed.
    pub fn dim(self) -> (r: Self)
        ensures
            r == (Style { dim: true, ..self }),
    {
        Style { dim: true, ..self }
    }

    /// This style with text and background swapped.
    pub fn reversed(self) -> (r: Self)
        ensures
            r == (Style { reversed: true, ..self }),
    {
        Style { reversed: true, ..self }
    }
}

#[derive(Debug, Clone, Copy, PartialEq, Eq, Structural)]
pub struct Theme {
    pub border: Style,
    pub title: Style,
    pub label: Style,
    pub value: Style,
    pub ok: Style,
    pub err: Style,
    pub warn: Style,
    pub info: Style,
    pub accent: Style,
    pub name: Style,
    pub duration: Style,
    pub dim: Style,
    pub highlight: Style,
    pub bar_empty: Style,
    pub gradient: bool,
}

/// The colored theme.
pub open spec fn btop_theme() -> Theme {
    Theme {
        border: colored(Color::Indexed(240)),
        title: Style { bold: true, ..colored(Color::White) },
        label: colored(Color::Indexed(243)),
        value: colored(Color::White),
        ok: colored(Color::Indexed(114)),
        err: colored(Color::Indexed(203)),
        warn: colored(Color::Indexed(221)),
        info: colored(Color::Indexed(81)),
        accent: colored(Color::Indexed(176)),
        name: colored(Color::Indexed(81)),
        duration: colored(Color::Indexed(221)),
        dim: colored(Color::Indexed(243)),
        highlight: Style { reversed: true, ..plain_style() },
        bar_empty: colored(Color::Indexed(238)),
        gradient: true,
    }
}

/// The theme without colors.
pub open spec fn mono_theme() -> Theme {
    Theme {
        border: plain_style(),
        title: Style { bold: true, ..plain_style() },
        label: plain_style(),
        value: plain_style(),
        ok: plain_style(),
        err: plain_style(),
        warn: plain_style(),
        info: plain_style(),
        accent: Style { bold: true, ..plain_style() },
        name: plain_style(),
        duration: plain_style(),
        dim: Style { dim: true, ..plain_style() },
        highlight: Style { reversed: true, ..plain_style() },
        bar_empty: plain_style(),
        gradient: false,
    }
}

/// The theme of this name.
pub open spec fn named_theme(name: ThemeName) -> Theme {
    match name {
        ThemeName::Btop => btop_theme(),
        ThemeName::Mono => mono_theme(),
    }
}

/// How many colors the gradient of the bar has.
pub const BAR_STOPS: usize = 10;

/// The gradient of the bar, green through yellow to red.
pub open spec fn bar_gradient() -> Seq<u8> {
    seq![46u8, 82, 118, 154, 190, 226, 220, 214, 208, 196]
}

impl Theme {
    pub fn from_name(name: ThemeName) -> (r: Self)
        ensures
            r == named_theme(name),
    {
        match name {
            ThemeName::Btop => Self::btop(),
            ThemeName::Mono => Self::mono(),
        }
    }

    pub fn btop() -> (r: Self)
        ensures
            r == btop_theme(),
    {
        let dim = Style::plain().fg(Color::Indexed(243));
        Theme {
            border: Style::plain().fg(Color::Indexed(240)),
            title: Style::plain().fg(Color::White).bold(),
            label: dim,
            value: Style::plain().fg(Color::White),
            ok: Style::plain().fg(Color::Indexed(114)),
            err: Style::plain().fg(Color::Indexed(203)),
            warn: Style::plain().fg(Color::Indexed(221)),
            info: Style::plain().fg(Color::Indexed(81)),
            accent: Style::plain().fg(Color::Indexed(176)),
            name: Style::plain().fg(Color::Indexed(81)),
            duration: Style::plain().fg(Color::Indexed(221)),
            dim,
            highlight: Style::plain().reversed(),
            bar_empty: Style::plain().fg(Color::Indexed(238)),
            gradient: true,
        }
    }

    pub fn mono() -> (r: Self)
        ensures
            r == mono_theme(),
    {
        let plain = Style::plain();
        Theme {
            border: plain,
            title: plain.bold(),
            label: plain,
            value: plain,
            ok: plain,
            err: plain,
            warn: plain,
            info: plain,
            accent: plain.bold(),
            name: plain,
            duration: plain,
            dim: plain.dim(),
            highlight: plain.reversed(),
            bar_empty: plain,
            gradient: false,
        }
    }

    /// The style of a run-state word.
    pub open spec fn style_of_state(self, label: Seq<char>) -> Style {
        Style {
            bold: true,
            ..if label == "RUNNING"@ {
                self.ok
            } else if label == "PAUSED"@ {
                self.warn
            } else if label == "ERROR"@ {
                self.err
            } else {
                self.info
            }
        }
    }

    /// Style for the run-state word in the header.
    pub fn state_style(&self, label: &str) -> (r: Style)
        ensures
            r == self.style_of_state(label@),
    {
        let style = if same(label, "RUNNING") {
            self.ok
        } else if same(label, "PAUSED") {
            self.warn
        } else if same(label, "ERROR") {
            self.err
        } else {
            self.info
        };
        style.bold()
    }

    /// Color of a bar cell at stop `stop` of the gradient; a theme without gradient has none.
    pub fn bar_stop(&self, stop: usize) -> (r: Color)
        requires
            stop < BAR_STOPS,
        ensures
            r == if self.gradient {
                Color::Indexed(bar_gradient()[stop as int])
            } else {
                Color::Reset
            },
    {
        if !self.gradient {
            return Color::Reset;
        }
        let stops: [u8; 10] = [46, 82, 118, 154, 190, 226, 220, 214, 208, 196];
        Color::Indexed(stops[stop])
    }
}

/// The mono theme turns all colors off: no style of it has a color, and neither does its bar.
pub proof fn law_mono_has_no_colors(label: Seq<char>)
    ensures
        mono_theme().border.color is None && mono_theme().title.color is None,
        mono_theme().label.color is None && mono_theme().value.color is None,
        mono_theme().ok.color is None && mono_theme().err.color is None,
        mono_theme().warn.color is None && mono_theme().info.color is None,
        mono_theme().accent.color is None && mono_theme().name.color is None,
        mono_theme().duration.color is None && mono_theme().dim.color is None,
        mono_theme().highlight.color is None && mono_theme().bar_empty.color is None,
        mono_theme().style_of_state(label).color is None,
        !mono_theme().gradient,
{
}

} // verus!
