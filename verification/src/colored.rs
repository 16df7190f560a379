//! Styled text: raw text together with its style record, and its rendering.

use vstd::prelude::*;
use vstd::string::StringExecFns;
use crate::ansi::AsAnsi;
use crate::code::{escape, Code, Style};
use crate::switch::{is_coloring, Switch};

verus! {

const ESC_SEQ: &'static str = "\u{001b}";

const RESET_CODE: &'static str = "0";

/// Text with the attributes it is to be shown with. The text is kept as it
/// was given; the attributes only take effect when the value is rendered.
#[derive(Debug)]
pub struct ColoredString {
    data: String,
    code: Code,
}

/// The mathematical value of a `ColoredString`.
pub ghost struct StyledText {
    pub text: Seq<char>,
    pub code: Code,
}

impl StyledText {
    /// The value after one styling step: the same text, the step applied to
    /// the record.
    pub open spec fn apply(self, style: Style) -> StyledText {
        StyledText { text: self.text, code: self.code.apply(style) }
    }

    /// The value after a run of styling steps, applied first to last.
    pub open spec fn apply_all(self, styles: Seq<Style>) -> StyledText
        decreases styles.len(),
    {
        if styles.len() == 0 {
            self
        } else {
            self.apply_all(styles.drop_last()).apply(styles.last())
        }
    }

    /// The rendered text. With color off it is the raw text. With color on
    /// it is the sequences of the attributes that are set, the raw text, and
    /// the reset sequence if any attribute is set.
    pub open spec fn rendered(self, coloring: bool) -> Seq<char> {
        if coloring {
            self.code.prefix() + self.text + self.code.suffix()
        } else {
            self.text
        }
    }
}

impl View for ColoredString {
    type V = StyledText;

    closed spec fn view(&self) -> StyledText {
        StyledText { text: self.data@, code: self.code }
    }
}

impl Clone for ColoredString {
    fn clone(&self) -> (copy: ColoredString)
        ensures
            copy@ == self@,
    {
        ColoredString { data: self.data.clone(), code: self.code }
    }
}

impl PartialEq for ColoredString {
    /// Two styled values are equal when both their raw texts and their
    /// records are.
    fn eq(&self, other: &ColoredString) -> (equal: bool) {
        self.data == other.data && self.code == other.code
    }
}

impl vstd::std_specs::cmp::PartialEqSpecImpl for ColoredString {
    open spec fn obeys_eq_spec() -> bool {
        true
    }

    open spec fn eq_spec(&self, other: &ColoredString) -> bool {
        self@ == other@
    }
}

/// Taken on trust from the standard library: `String::from` on a string
/// slice gives a string that holds the characters of the slice, in their
/// order.
pub assume_specification<'a>[ <String as From<&'a str>>::from ](s: &str) -> (text: String)
    ensures
        text@ == s@,
;

/// Whether `text` is what `String::from` makes of `s`. For a string slice
/// that is the characters of the slice.
pub open spec fn converts_to<T>(s: T, text: Seq<char>) -> bool where String: From<T> {
    exists|data: String| #[trigger]
        call_ensures(<String as From<T>>::from, (s,), data) && data@ == text
}

/// Appends the escape sequence of `param` to `out`.
fn push_escape(out: &mut String, param: &str)
    ensures
        final(out)@ == old(out)@ + escape(param@),
{
    proof {
        reveal_strlit("\u{001b}");
        reveal_strlit("[");
        reveal_strlit("m");
    }
    out.append(ESC_SEQ);
    out.append("[");
    out.append(param);
    out.append("m");
}

impl ColoredString {
    /// An empty text without attributes.
    pub fn new() -> (text: ColoredString)
        ensures
            text@.text == Seq::<char>::empty(),
            text@.code == Code::plain(),
    {
        ColoredString { data: String::new(), code: Code::new() }
    }

    /// The text that `s` converts to, without attributes.
    pub fn from<T>(s: T) -> (text: ColoredString) where String: From<T>
        ensures
            converts_to(s, text@.text),
            text@.code == Code::plain(),
    {
        ColoredString { data: String::from(s), code: Code::new() }
    }

    /// The text `data` with the attributes of `code`.
    pub(crate) fn with_code(data: &str, code: Code) -> (text: ColoredString)
        ensures
            text@ == (StyledText { text: data@, code }),
    {
        ColoredString { data: String::from(data), code }
    }

    /// Renders the value as `switch` says: with its escape sequences while
    /// color is enabled, as the raw text while it is disabled.
    pub fn to_string(&self, switch: &Switch) -> (out: String)
        ensures
            out@ == self@.rendered(switch@),
    {
        if is_coloring(switch) {
            let mut out = String::new();
            if let Some(bg) = &self.code.bg {
                push_escape(&mut out, bg.to_string().as_str());
            }
            if let Some(fg) = &self.code.fg {
                push_escape(&mut out, fg.to_string().as_str());
            }
            if let Some(bold) = &self.code.bold {
                push_escape(&mut out, bold.to_string().as_str());
            }
            if let Some(underline) = &self.code.underline {
                push_escape(&mut out, underline.to_string().as_str());
            }
            if let Some(reversed) = &self.code.reversed {
                push_escape(&mut out, reversed.to_string().as_str());
            }
            out.append(self.data.as_str());
            if self.code.is_decorated() {
                proof {
                    reveal_strlit("0");
                }
                push_escape(&mut out, RESET_CODE);
            }
            out
        } else {
            self.data.clone()
        }
    }
}

impl AsAnsi for ColoredString {
    open spec fn code(&self) -> Option<Code> {
        Some(self@.code)
    }

    open spec fn data(&self) -> Seq<char> {
        self@.text
    }

    fn as_code(&self) -> (code: Option<&Code>) {
        Some(&self.code)
    }

    fn get_data(&self) -> (data: &str) {
        self.data.as_str()
    }
}

} // verus!
