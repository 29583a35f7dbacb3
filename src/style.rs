use vstd::prelude::*;

verus! {

/// The foreground colours the interface uses.
#[derive(Clone, Copy, Debug, PartialEq, Eq, Structural)]
pub enum Color {
    Red,
    Green,
    Yellow,
    Blue,
    White,
}

/// How a cell is painted: an optional foreground colour and boldness.
#[derive(Clone, Copy, Debug, PartialEq, Eq, Structural)]
pub struct Style {
    pub fg: Option<Color>,
    pub bold: bool,
}

impl Style {
    pub open spec fn plain_spec() -> Style {
        Style { fg: None, bold: false }
    }

    /// The terminal's default style.
    pub fn plain() -> (r: Style)
        ensures
            r == Style::plain_spec(),
    {
        Style { fg: None, bold: false }
    }

    /// This style with the foreground colour replaced.
    pub fn fg(self, c: Color) -> (r: Style)
        ensures
            r == (Style { fg: Some(c), ..self }),
    {
        Style { fg: Some(c), bold: self.bold }
    }

    /// This style made bold.
    pub fn bolded(self) -> (r: Style)
        ensures
            r == (Style { bold: true, ..self }),
    {
        Style { fg: self.fg, bold: true }
    }
}

} // verus!
