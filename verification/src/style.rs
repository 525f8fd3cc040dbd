//! Form styling and theming.
//!
//! A form carries its theme along for whoever draws it; nothing in the form
//! depends on it.

use vstd::prelude::*;

verus! {

/// A terminal colour.
#[derive(Clone, Copy, Debug, PartialEq, Eq, Structural)]
pub enum Color {
    Reset,
    Black,
    Red,
    Green,
    Yellow,
    Blue,
    Magenta,
    Cyan,
    Gray,
    DarkGray,
    LightRed,
    LightGreen,
    LightYellow,
    LightBlue,
    LightMagenta,
    LightCyan,
    White,
    /// Red, green and blue.
    Rgb(u8, u8, u8),
    /// An entry of the terminal's palette.
    Indexed(u8),
}

/// How a piece of text is drawn: foreground, background, and weight.
#[derive(Clone, Copy, Debug, PartialEq, Eq)]
pub struct Style {
    pub fg: Option<Color>,
    pub bg: Option<Color>,
    pub bold: bool,
}

impl Style {
    /// The style that changes nothing.
    pub open spec fn plain() -> Style {
        Style { fg: None, bg: None, bold: false }
    }

    /// A foreground colour alone.
    pub open spec fn colored(fg: Color) -> Style {
        Style { fg: Some(fg), bg: None, bold: false }
    }

    /// A foreground colour in bold.
    pub open spec fn strong(fg: Color) -> Style {
        Style { fg: Some(fg), bg: None, bold: true }
    }

    /// A foreground colour on a background.
    pub open spec fn on(fg: Color, bg: Color) -> Style {
        Style { fg: Some(fg), bg: Some(bg), bold: false }
    }

    /// The style that changes nothing.
    pub fn new() -> (s: Self)
        ensures
            s == Style::plain(),
    {
        Style { fg: None, bg: None, bold: false }
    }

    /// The style with the foreground `color`.
    pub fn fg(self, color: Color) -> (s: Self)
        ensures
            s == (Style { fg: Some(color), ..self }),
    {
        Style { fg: Some(color), ..self }
    }

    /// The style with the background `color`.
    pub fn bg(self, color: Color) -> (s: Self)
        ensures
            s == (Style { bg: Some(color), ..self }),
    {
        Style { bg: Some(color), ..self }
    }

    /// The style in bold.
    pub fn bold(self) -> (s: Self)
        ensures
            s == (Style { bold: true, ..self }),
    {
        Style { bold: true, ..self }
    }
}

/// Style configuration for forms.
#[derive(Clone, Copy, Debug, PartialEq, Eq)]
pub struct FormStyle {
    /// Style for the form title.
    pub title: Style,
    /// Style for field labels.
    pub label: Style,
    /// Style for focused field labels.
    pub label_focused: Style,
    /// Style for input fields.
    pub input: Style,
    /// Style for focused input fields.
    pub input_focused: Style,
    /// Style for placeholder text.
    pub placeholder: Style,
    /// Style for error messages.
    pub error: Style,
    /// Style for the submit button.
    pub button: Style,
    /// Style for the focused submit button.
    pub button_focused: Style,
    /// Style for the form border.
    pub border: Style,
    /// Style for the focused form border.
    pub border_focused: Style,
}

impl FormStyle {
    /// The dark theme, which is the default.
    pub open spec fn dark_theme() -> FormStyle {
        FormStyle {
            title: Style::strong(Color::Cyan),
            label: Style::colored(Color::White),
            label_focused: Style::strong(Color::Cyan),
            input: Style::on(Color::White, Color::DarkGray),
            input_focused: Style::on(Color::White, Color::Blue),
            placeholder: Style::colored(Color::Gray),
            error: Style::colored(Color::Red),
            button: Style::on(Color::White, Color::DarkGray),
            button_focused: Style { fg: Some(Color::Black), bg: Some(Color::Green), bold: true },
            border: Style::colored(Color::Gray),
            border_focused: Style::colored(Color::Cyan),
        }
    }

    /// The light theme.
    pub open spec fn light_theme() -> FormStyle {
        FormStyle {
            title: Style::strong(Color::Blue),
            label: Style::colored(Color::Black),
            label_focused: Style::strong(Color::Blue),
            input: Style::on(Color::Black, Color::White),
            input_focused: Style::on(Color::Black, Color::LightBlue),
            placeholder: Style::colored(Color::DarkGray),
            error: Style::colored(Color::Red),
            button: Style::on(Color::Black, Color::White),
            button_focused: Style { fg: Some(Color::White), bg: Some(Color::Blue), bold: true },
            border: Style::colored(Color::DarkGray),
            border_focused: Style::colored(Color::Blue),
        }
    }
}

impl Default for FormStyle {
    fn default() -> (s: Self)
        ensures
            s == FormStyle::dark_theme(),
    {
        FormStyle {
            title: Style::new().fg(Color::Cyan).bold(),
            label: Style::new().fg(Color::White),
            label_focused: Style::new().fg(Color::Cyan).bold(),
            input: Style::new().fg(Color::White).bg(Color::DarkGray),
            input_focused: Style::new().fg(Color::White).bg(Color::Blue),
            placeholder: Style::new().fg(Color::Gray),
            error: Style::new().fg(Color::Red),
            button: Style::new().fg(Color::White).bg(Color::DarkGray),
            button_focused: Style::new().fg(Color::Black).bg(Color::Green).bold(),
            border: Style::new().fg(Color::Gray),
            border_focused: Style::new().fg(Color::Cyan),
        }
    }
}

impl FormStyle {
    /// Creates a new form style with default values.
    pub fn new() -> (s: Self)
        ensures
            s == FormStyle::dark_theme(),
    {
        Self::default()
    }

    /// Sets the title style.
    pub fn title(self, style: Style) -> (s: Self)
        ensures
            s == (FormStyle { title: style, ..self }),
    {
        FormStyle { title: style, ..self }
    }

    /// Sets the label style.
    pub fn label(self, style: Style) -> (s: Self)
        ensures
            s == (FormStyle { label: style, ..self }),
    {
        FormStyle { label: style, ..self }
    }

    /// Sets the focused label style.
    pub fn label_focused(self, style: Style) -> (s: Self)
        ensures
            s == (FormStyle { label_focused: style, ..self }),
    {
        FormStyle { label_focused: style, ..self }
    }

    /// Sets the input style.
    pub fn input(self, style: Style) -> (s: Self)
        ensures
            s == (FormStyle { input: style, ..self }),
    {
        FormStyle { input: style, ..self }
    }

    /// Sets the focused input style.
    pub fn input_focused(self, style: Style) -> (s: Self)
        ensures
            s == (FormStyle { input_focused: style, ..self }),
    {
        FormStyle { input_focused: style, ..self }
    }

    /// Sets the placeholder style.
    pub fn placeholder(self, style: Style) -> (s: Self)
        ensures
            s == (FormStyle { placeholder: style, ..self }),
    {
        FormStyle { placeholder: style, ..self }
    }

    /// Sets the error style.
    pub fn error(self, style: Style) -> (s: Self)
        ensures
            s == (FormStyle { error: style, ..self }),
    {
        FormStyle { error: style, ..self }
    }

    /// Sets the button style.
    pub fn button(self, style: Style) -> (s: Self)
        ensures
            s == (FormStyle { button: style, ..self }),
    {
        FormStyle { button: style, ..self }
    }

    /// Sets the focused button style.
    pub fn button_focused(self, style: Style) -> (s: Self)
        ensures
            s == (FormStyle { button_focused: style, ..self }),
    {
        FormStyle { button_focused: style, ..self }
    }

    /// Creates a dark theme.
    pub fn dark() -> (s: Self)
        ensures
            s == FormStyle::dark_theme(),
    {
        Self::default()
    }

    /// Creates a light theme.
    pub fn light() -> (s: Self)
        ensures
            s == FormStyle::light_theme(),
    {
        FormStyle {
            title: Style::new().fg(Color::Blue).bold(),
            label: Style::new().fg(Color::Black),
            label_focused: Style::new().fg(Color::Blue).bold(),
            input: Style::new().fg(Color::Black).bg(Color::White),
            input_focused: Style::new().fg(Color::Black).bg(Color::LightBlue),
            placeholder: Style::new().fg(Color::DarkGray),
            error: Style::new().fg(Color::Red),
            button: Style::new().fg(Color::Black).bg(Color::White),
            button_focused: Style::new().fg(Color::White).bg(Color::Blue).bold(),
            border: Style::new().fg(Color::DarkGray),
            border_focused: Style::new().fg(Color::Blue),
        }
    }
}

} // verus!
