//! The styling methods, available on every value that has text.

use vstd::prelude::*;
use crate::ansi::AsAnsi;
use crate::code::{Code, Style};
use crate::colored::{ColoredString, StyledText};
use crate::palette::{Bg, Bold, Fg, Reversed, Underline};

verus! {

/// The value that styling starts from: the raw text of `t` with the record
/// that `t` carries, or with no attribute where it carries none.
pub open spec fn styled<T: AsAnsi + ?Sized>(t: &T) -> StyledText {
    StyledText {
        text: t.data(),
        code: match t.code() {
            Some(code) => code,
            None => Code::plain(),
        },
    }
}

/// The record that a styling step builds on.
fn inherited<T: AsAnsi + ?Sized>(t: &T) -> (code: Code)
    ensures
        code == styled(t).code,
{
    match t.as_code() {
        Some(c) => *c,
        None => Code::new(),
    }
}

/// The styling methods. Each one leaves `self` alone and returns a new
/// styled value with the same raw text, in which one attribute is set to
/// the method's value and the other four are as `self` had them.
pub trait Color<T: AsAnsi + ?Sized> {
    /// The text of `self`, bold.
    fn bold(&self) -> ColoredString;

    /// The text of `self`, underlined.
    fn underline(&self) -> ColoredString;

    /// The text of `self`, in reversed video.
    fn reversed(&self) -> ColoredString;

    /// The text of `self` in black.
    fn black(&self) -> ColoredString;

    /// The text of `self` in red.
    fn red(&self) -> ColoredString;

    /// The text of `self` in green.
    fn green(&self) -> ColoredString;

    /// The text of `self` in yellow.
    fn yellow(&self) -> ColoredString;

    /// The text of `self` in blue.
    fn blue(&self) -> ColoredString;

    /// The text of `self` in magenta.
    fn magenta(&self) -> ColoredString;

    /// The text of `self` in cyan.
    fn cyan(&self) -> ColoredString;

    /// The text of `self` in white.
    fn white(&self) -> ColoredString;

    /// The text of `self` on a black background.
    fn bg_black(&self) -> ColoredString;

    /// The text of `self` on a red background.
    fn bg_red(&self) -> ColoredString;

    /// The text of `self` on a green background.
    fn bg_green(&self) -> ColoredString;

    /// The text of `self` on a yellow background.
    fn bg_yellow(&self) -> ColoredString;

    /// The text of `self` on a blue background.
    fn bg_blue(&self) -> ColoredString;

    /// The text of `self` on a magenta background.
    fn bg_magenta(&self) -> ColoredString;

    /// The text of `self` on a cyan background.
    fn bg_cyan(&self) -> ColoredString;

    /// The text of `self` on a white background.
    fn bg_white(&self) -> ColoredString;
}

impl<T: AsAnsi + ?Sized> Color<T> for T {
    fn bold(&self) -> (text: ColoredString)
        ensures
            text@ == styled(self).apply(Style::Bold),
    {
        let code = inherited(self);
        ColoredString::with_code(
            self.get_data(),
            Code {
                fg: code.fg,
                bg: code.bg,
                bold: Some(Bold),
                underline: code.underline,
                reversed: code.reversed,
            },
        )
    }

    fn underline(&self) -> (text: ColoredString)
        ensures
            text@ == styled(self).apply(Style::Underline),
    {
        let code = inherited(self);
        ColoredString::with_code(
            self.get_data(),
            Code {
                fg: code.fg,
                bg: code.bg,
                bold: code.bold,
                underline: Some(Underline),
                reversed: code.reversed,
            },
        )
    }

    fn reversed(&self) -> (text: ColoredString)
        ensures
            text@ == styled(self).apply(Style::Reversed),
    {
        let code = inherited(self);
        ColoredString::with_code(
            self.get_data(),
            Code {
                fg: code.fg,
                bg: code.bg,
                bold: code.bold,
                underline: code.underline,
                reversed: Some(Reversed),
            },
        )
    }

    fn black(&self) -> (text: ColoredString)
        ensures
            text@ == styled(self).apply(Style::Fg(Fg::Black)),
    {
        let code = inherited(self);
        ColoredString::with_code(
            self.get_data(),
            Code {
                fg: Some(Fg::Black),
                bg: code.bg,
                bold: code.bold,
                underline: code.underline,
                reversed: code.reversed,
            },
        )
    }

    fn red(&self) -> (text: ColoredString)
        ensures
            text@ == styled(self).apply(Style::Fg(Fg::Red)),
    {
        let code = inherited(self);
        ColoredString::with_code(
            self.get_data(),
            Code {
                fg: Some(Fg::Red),
                bg: code.bg,
                bold: code.bold,
                underline: code.underline,
                reversed: code.reversed,
            },
        )
    }

    fn green(&self) -> (text: ColoredString)
        ensures
            text@ == styled(self).apply(Style::Fg(Fg::Green)),
    {
        let code = inherited(self);
        ColoredString::with_code(
            self.get_data(),
            Code {
                fg: Some(Fg::Green),
                bg: code.bg,
                bold: code.bold,
                underline: code.underline,
                reversed: code.reversed,
            },
        )
    }

    fn yellow(&self) -> (text: ColoredString)
        ensures
            text@ == styled(self).apply(Style::Fg(Fg::Yellow)),
    {
        let code = inherited(self);
        ColoredString::with_code(
            self.get_data(),
            Code {
                fg: Some(Fg::Yellow),
                bg: code.bg,
                bold: code.bold,
                underline: code.underline,
                reversed: code.reversed,
            },
        )
    }

    fn blue(&self) -> (text: ColoredString)
        ensures
            text@ == styled(self).apply(Style::Fg(Fg::Blue)),
    {
        let code = inherited(self);
        ColoredString::with_code(
            self.get_data(),
            Code {
                fg: Some(Fg::Blue),
                bg: code.bg,
                bold: code.bold,
                underline: code.underline,
                reversed: code.reversed,
            },
        )
    }

    fn magenta(&self) -> (text: ColoredString)
        ensures
            text@ == styled(self).apply(Style::Fg(Fg::Magenta)),
    {
        let code = inherited(self);
        ColoredString::with_code(
            self.get_data(),
            Code {
                fg: Some(Fg::Magenta),
                bg: code.bg,
                bold: code.bold,
                underline: code.underline,
                reversed: code.reversed,
            },
        )
    }

    fn cyan(&self) -> (text: ColoredString)
        ensures
            text@ == styled(self).apply(Style::Fg(Fg::Cyan)),
    {
        let code = inherited(self);
        ColoredString::with_code(
            self.get_data(),
            Code {
                fg: Some(Fg::Cyan),
                bg: code.bg,
                bold: code.bold,
                underline: code.underline,
                reversed: code.reversed,
            },
        )
    }

    fn white(&self) -> (text: ColoredString)
        ensures
            text@ == styled(self).apply(Style::Fg(Fg::White)),
    {
        let code = inherited(self);
        ColoredString::with_code(
            self.get_data(),
            Code {
                fg: Some(Fg::White),
                bg: code.bg,
                bold: code.bold,
                underline: code.underline,
                reversed: code.reversed,
            },
        )
    }

    fn bg_black(&self) -> (text: ColoredString)
        ensures
            text@ == styled(self).apply(Style::Bg(Bg::Black)),
    {
        let code = inherited(self);
        ColoredString::with_code(
            self.get_data(),
            Code {
                fg: code.fg,
                bg: Some(Bg::Black),
                bold: code.bold,
                underline: code.underline,
                reversed: code.reversed,
            },
        )
    }

    fn bg_red(&self) -> (text: ColoredString)
        ensures
            text@ == styled(self).apply(Style::Bg(Bg::Red)),
    {
        let code = inherited(self);
        ColoredString::with_code(
            self.get_data(),
            Code {
                fg: code.fg,
                bg: Some(Bg::Red),
                bold: code.bold,
                underline: code.underline,
                reversed: code.reversed,
            },
        )
    }

    fn bg_green(&self) -> (text: ColoredString)
        ensures
            text@ == styled(self).apply(Style::Bg(Bg::Green)),
    {
        let code = inherited(self);
        ColoredString::with_code(
            self.get_data(),
            Code {
                fg: code.fg,
                bg: Some(Bg::Green),
                bold: code.bold,
                underline: code.underline,
                reversed: code.reversed,
            },
        )
    }

    fn bg_yellow(&self) -> (text: ColoredString)
        ensures
            text@ == styled(self).apply(Style::Bg(Bg::Yellow)),
    {
        let code = inherited(self);
        ColoredString::with_code(
            self.get_data(),
            Code {
                fg: code.fg,
                bg: Some(Bg::Yellow),
                bold: code.bold,
                underline: code.underline,
                reversed: code.reversed,
            },
        )
    }

    fn bg_blue(&self) -> (text: ColoredString)
        ensures
            text@ == styled(self).apply(Style::Bg(Bg::Blue)),
    {
        let code = inherited(self);
        ColoredString::with_code(
            self.get_data(),
            Code {
                fg: code.fg,
                bg: Some(Bg::Blue),
                bold: code.bold,
                underline: code.underline,
                reversed: code.reversed,
            },
        )
    }

    fn bg_magenta(&self) -> (text: ColoredString)
        ensures
            text@ == styled(self).apply(Style::Bg(Bg::Magenta)),
    {
        let code = inherited(self);
        ColoredString::with_code(
            self.get_data(),
            Code {
                fg: code.fg,
                bg: Some(Bg::Magenta),
                bold: code.bold,
                underline: code.underline,
                reversed: code.reversed,
            },
        )
    }

    fn bg_cyan(&self) -> (text: ColoredString)
        ensures
            text@ == styled(self).apply(Style::Bg(Bg::Cyan)),
    {
        let code = inherited(self);
        ColoredString::with_code(
            self.get_data(),
            Code {
                fg: code.fg,
                bg: Some(Bg::Cyan),
                bold: code.bold,
                underline: code.underline,
                reversed: code.reversed,
            },
        )
    }

    fn bg_white(&self) -> (text: ColoredString)
        ensures
            text@ == styled(self).apply(Style::Bg(Bg::White)),
    {
        let code = inherited(self);
        ColoredString::with_code(
            self.get_data(),
            Code {
                fg: code.fg,
                bg: Some(Bg::White),
                bold: code.bold,
                underline: code.underline,
                reversed: code.reversed,
            },
        )
    }
}

} // verus!
