use vstd::prelude::*;

verus! {

/// A terminal color, as the cell buffer records it.
#[derive(Debug, Clone, Copy, PartialEq, Eq)]
pub enum Color {
    Black,
    Red,
    Green,
    Yellow,
    Blue,
    Magenta,
    Cyan,
    White,
}

/// A visual style. Each attribute is either explicitly set (`Some`) or left
/// unset (`None`), in which case it falls through to whatever base style the
/// style is merged onto.
#[derive(Debug, Clone, Copy, PartialEq, Eq)]
pub struct Style {
    pub fg: Option<Color>,
    pub bg: Option<Color>,
    pub bold: Option<bool>,
}

/// The attribute-wise merge of `over` onto `base`: an attribute that `over`
/// sets explicitly wins, and an unset attribute inherits `base`'s choice.
pub open spec fn merged(over: Style, base: Style) -> Style {
    Style {
        fg: if over.fg is Some {
            over.fg
        } else {
            base.fg
        },
        bg: if over.bg is Some {
            over.bg
        } else {
            base.bg
        },
        bold: if over.bold is Some {
            over.bold
        } else {
            base.bold
        },
    }
}

impl Style {
    /// Merge `self` onto `base`: `self`'s explicit attributes take priority,
    /// and its unset attributes fall back to `base`.
    pub fn merge_onto(self, base: Style) -> (r: Style)
        ensures
            r == merged(self, base),
    {
        Style {
            fg: match self.fg {
                Some(c) => Some(c),
                None => base.fg,
            },
            bg: match self.bg {
                Some(c) => Some(c),
                None => base.bg,
            },
            bold: match self.bold {
                Some(b) => Some(b),
                None => base.bold,
            },
        }
    }

    /// Set the foreground color.
    pub fn fg(self, color: Color) -> (r: Style)
        ensures
            r.fg == Some(color),
            r.bg == self.bg,
            r.bold == self.bold,
    {
        Style { fg: Some(color), ..self }
    }

    /// Set the background color.
    pub fn bg(self, color: Color) -> (r: Style)
        ensures
            r.bg == Some(color),
            r.fg == self.fg,
            r.bold == self.bold,
    {
        Style { bg: Some(color), ..self }
    }

    /// Set or clear the bold attribute explicitly.
    pub fn bold(self, on: bool) -> (r: Style)
        ensures
            r.bold == Some(on),
            r.fg == self.fg,
            r.bg == self.bg,
    {
        Style { bold: Some(on), ..self }
    }
}

impl Default for Style {
    /// The style with every attribute unset.
    fn default() -> (r: Style)
        ensures
            r.fg is None,
            r.bg is None,
            r.bold is None,
    {
        Style { fg: None, bg: None, bold: None }
    }
}

} // verus!
