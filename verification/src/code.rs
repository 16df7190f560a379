//! The style record carried by styled text, and the escape sequences it
//! stands for.

use vstd::prelude::*;
use crate::palette::{Bg, Bold, Fg, Reversed, Underline};

verus! {

/// The five independent attributes of a piece of text. Each is either set
/// or absent, and any combination is well formed.
#[derive(Debug, PartialEq, Eq, Structural, Clone, Copy)]
pub struct Code {
    pub fg: Option<Fg>,
    pub bg: Option<Bg>,
    pub bold: Option<Bold>,
    pub underline: Option<Underline>,
    pub reversed: Option<Reversed>,
}

/// One styling step: the attribute that a method of `Color` sets.
pub ghost enum Style {
    Fg(Fg),
    Bg(Bg),
    Bold,
    Underline,
    Reversed,
}

/// The escape sequence for one parameter: ESC, `[`, the parameter, `m`.
pub open spec fn escape(param: Seq<char>) -> Seq<char> {
    seq!['\u{1b}', '['] + param + seq!['m']
}

/// The sequence that ends every decorated text: `ESC[0m`.
pub open spec fn reset() -> Seq<char> {
    escape(seq!['0'])
}

impl Code {
    /// The record with every attribute absent.
    pub open spec fn plain() -> Code {
        Code { fg: None, bg: None, bold: None, underline: None, reversed: None }
    }

    /// Whether at least one attribute is set.
    pub open spec fn decorated(self) -> bool {
        self.fg is Some || self.bg is Some || self.bold is Some || self.underline is Some
            || self.reversed is Some
    }

    /// The record after one styling step: the step's attribute is set, the
    /// other four are kept.
    pub open spec fn apply(self, style: Style) -> Code {
        match style {
            Style::Fg(fg) => Code { fg: Some(fg), ..self },
            Style::Bg(bg) => Code { bg: Some(bg), ..self },
            Style::Bold => Code { bold: Some(Bold), ..self },
            Style::Underline => Code { underline: Some(Underline), ..self },
            Style::Reversed => Code { reversed: Some(Reversed), ..self },
        }
    }

    /// The sequence for the background, empty when none is set.
    pub open spec fn bg_escape(self) -> Seq<char> {
        match self.bg {
            Some(bg) => escape(bg.param()),
            None => Seq::empty(),
        }
    }

    /// The sequence for the foreground, empty when none is set.
    pub open spec fn fg_escape(self) -> Seq<char> {
        match self.fg {
            Some(fg) => escape(fg.param()),
            None => Seq::empty(),
        }
    }

    /// The sequence for bold, empty when it is not set.
    pub open spec fn bold_escape(self) -> Seq<char> {
        match self.bold {
            Some(bold) => escape(bold.param()),
            None => Seq::empty(),
        }
    }

    /// The sequence for underline, empty when it is not set.
    pub open spec fn underline_escape(self) -> Seq<char> {
        match self.underline {
            Some(underline) => escape(underline.param()),
            None => Seq::empty(),
        }
    }

    /// The sequence for reversed video, empty when it is not set.
    pub open spec fn reversed_escape(self) -> Seq<char> {
        match self.reversed {
            Some(reversed) => escape(reversed.param()),
            None => Seq::empty(),
        }
    }

    /// What is emitted before the text: one sequence per attribute that is
    /// set, in the order background, foreground, bold, underline, reversed.
    pub open spec fn prefix(self) -> Seq<char> {
        self.bg_escape() + self.fg_escape() + self.bold_escape() + self.underline_escape()
            + self.reversed_escape()
    }

    /// What is emitted after the text: the reset sequence when an attribute
    /// is set, nothing otherwise.
    pub open spec fn suffix(self) -> Seq<char> {
        if self.decorated() {
            reset()
        } else {
            Seq::empty()
        }
    }

    /// Tells whether at least one attribute is set.
    pub fn is_decorated(&self) -> (b: bool)
        ensures
            b == self.decorated(),
    {
        self.fg.is_some() || self.bg.is_some() || self.bold.is_some() || self.underline.is_some()
            || self.reversed.is_some()
    }

    /// A record with every attribute absent.
    pub fn new() -> (code: Code)
        ensures
            code == Code::plain(),
    {
        Code { fg: None, bg: None, bold: None, underline: None, reversed: None }
    }
}

} // verus!
