//! What holds of styling and rendering in general, proved over the values
//! that the contracts of the library speak of.

use vstd::prelude::*;
use vstd::utf8::{encode_utf8, is_ascii_chars, is_ascii_chars_encode_utf8};
use crate::code::{escape, reset, Code, Style};
use crate::color::styled;
use crate::colored::{ColoredString, StyledText};
use crate::palette::{Bg, Bold, Fg, Reversed, Underline};
use crate::switch::Switch;

verus! {

/// The color of the last foreground step in `styles`, if there is one.
pub open spec fn last_fg(styles: Seq<Style>) -> Option<Fg>
    decreases styles.len(),
{
    if styles.len() == 0 {
        None
    } else {
        match styles.last() {
            Style::Fg(fg) => Some(fg),
            _ => last_fg(styles.drop_last()),
        }
    }
}

/// The color of the last background step in `styles`, if there is one.
pub open spec fn last_bg(styles: Seq<Style>) -> Option<Bg>
    decreases styles.len(),
{
    if styles.len() == 0 {
        None
    } else {
        match styles.last() {
            Style::Bg(bg) => Some(bg),
            _ => last_bg(styles.drop_last()),
        }
    }
}

/// Styling starts from what a value is. A string starts as its characters
/// with no attribute, and a styled value starts as itself, so the methods
/// of a chain apply their steps one after another to one value.
pub proof fn lemma_chain_starts_from_value(plain: &str, owned: String, already: ColoredString)
    ensures
        styled(plain) == (StyledText { text: plain@, code: Code::plain() }),
        styled(&owned) == (StyledText { text: owned@, code: Code::plain() }),
        styled(&already) == already@,
{
}

/// Styling never alters the raw text: after any run of styling steps the
/// text is the one the run started from.
pub proof fn lemma_styling_keeps_text(v: StyledText, styles: Seq<Style>)
    ensures
        v.apply_all(styles).text == v.text,
    decreases styles.len(),
{
    if styles.len() > 0 {
        lemma_styling_keeps_text(v, styles.drop_last());
    }
}

/// A styling step applied twice in a row gives what it gives applied once.
pub proof fn lemma_step_is_idempotent(v: StyledText, style: Style)
    ensures
        v.apply(style).apply(style) == v.apply(style),
{
}

/// Of two foreground steps in a row only the second shows: the first
/// leaves no trace.
pub proof fn lemma_second_foreground_replaces_first(v: StyledText, first: Fg, second: Fg)
    ensures
        v.apply(Style::Fg(first)).apply(Style::Fg(second)) == v.apply(Style::Fg(second)),
{
}

/// Of two background steps in a row only the second shows: the first
/// leaves no trace.
pub proof fn lemma_second_background_replaces_first(v: StyledText, first: Bg, second: Bg)
    ensures
        v.apply(Style::Bg(first)).apply(Style::Bg(second)) == v.apply(Style::Bg(second)),
{
}

/// The last write wins, attribute by attribute. After any run of styling
/// steps each color is that of the last step that set it, or the one the
/// run started from if no step did; a decoration is set exactly if it was
/// set at the start or some step set it.
pub proof fn lemma_last_write_wins(v: StyledText, styles: Seq<Style>)
    ensures
        v.apply_all(styles).code.fg == match last_fg(styles) {
            Some(fg) => Some(fg),
            None => v.code.fg,
        },
        v.apply_all(styles).code.bg == match last_bg(styles) {
            Some(bg) => Some(bg),
            None => v.code.bg,
        },
        v.apply_all(styles).code.bold is Some <==> v.code.bold is Some || styles.contains(
            Style::Bold,
        ),
        v.apply_all(styles).code.underline is Some <==> v.code.underline is Some
            || styles.contains(Style::Underline),
        v.apply_all(styles).code.reversed is Some <==> v.code.reversed is Some
            || styles.contains(Style::Reversed),
    decreases styles.len(),
{
    if styles.len() > 0 {
        let init = styles.drop_last();
        lemma_last_write_wins(v, init);
        assert(styles =~= init.push(styles.last()));
        assert forall|s: Style| styles.contains(s) <==> init.contains(s) || s == styles.last() by {
            if init.contains(s) {
                let i = choose|i: int| 0 <= i < init.len() && init[i] == s;
                assert(styles[i] == s);
            }
            if s == styles.last() {
                assert(styles[styles.len() - 1] == s);
            }
        }
    }
}

/// The UTF-8 encoding of two texts joined is the two encodings joined.
pub proof fn lemma_encoding_of_joined_text(a: Seq<char>, b: Seq<char>)
    ensures
        encode_utf8(a + b) == encode_utf8(a) + encode_utf8(b),
    decreases a.len(),
{
    if a.len() == 0 {
        assert(a + b =~= b);
    } else {
        lemma_encoding_of_joined_text(a.drop_first(), b);
        assert((a + b).drop_first() =~= a.drop_first() + b);
    }
}

/// Every escape sequence of a record, and so all that rendering adds to the
/// text, is ASCII.
pub proof fn lemma_escapes_are_ascii(code: Code)
    ensures
        is_ascii_chars(code.prefix()),
        is_ascii_chars(code.suffix()),
{
}

/// Rendering adds as many bytes as it adds characters: encoded as UTF-8,
/// the rendered text is longer than the encoded raw text by the lengths of
/// what comes before and after it.
pub proof fn lemma_rendering_adds_one_byte_per_character(v: StyledText)
    ensures
        encode_utf8(v.rendered(true)).len() == v.code.prefix().len() + encode_utf8(v.text).len()
            + v.code.suffix().len(),
{
    lemma_escapes_are_ascii(v.code);
    lemma_encoding_of_joined_text(v.code.prefix() + v.text, v.code.suffix());
    lemma_encoding_of_joined_text(v.code.prefix(), v.text);
    is_ascii_chars_encode_utf8(v.code.prefix());
    is_ascii_chars_encode_utf8(v.code.suffix());
}

/// With color disabled a styled value renders as its raw text, whatever
/// attributes it has gathered.
pub proof fn lemma_disabled_renders_raw_text(v: StyledText)
    ensures
        v.rendered(false) == v.text,
{
}

/// Text with a foreground color and nothing else renders, with color
/// enabled, nine characters longer than it is: five for the color and four
/// for the reset. Counted in bytes of UTF-8 it is nine longer as well.
pub proof fn lemma_foreground_only_length(v: StyledText)
    requires
        v.code.fg is Some,
        v.code.bg is None,
        v.code.bold is None,
        v.code.underline is None,
        v.code.reversed is None,
    ensures
        v.code.fg_escape().len() == 5,
        v.code.suffix().len() == 4,
        v.rendered(true).len() == v.text.len() + 9,
        encode_utf8(v.rendered(true)).len() == encode_utf8(v.text).len() + 9,
{
    lemma_rendering_adds_one_byte_per_character(v);
}

/// Text with all five attributes renders, with color enabled, twenty-six
/// characters longer than it is: five for each color, four for each
/// decoration and four for the reset. Counted in bytes of UTF-8 it is
/// twenty-six longer as well.
pub proof fn lemma_full_code_length(v: StyledText)
    requires
        v.code.fg is Some,
        v.code.bg is Some,
        v.code.bold is Some,
        v.code.underline is Some,
        v.code.reversed is Some,
    ensures
        v.code.bg_escape().len() == 5,
        v.code.fg_escape().len() == 5,
        v.code.bold_escape().len() == 4,
        v.code.underline_escape().len() == 4,
        v.code.reversed_escape().len() == 4,
        v.code.suffix().len() == 4,
        v.rendered(true).len() == v.text.len() + 26,
        encode_utf8(v.rendered(true)).len() == encode_utf8(v.text).len() + 26,
{
    lemma_rendering_adds_one_byte_per_character(v);
}

/// Text that is not decorated has all five attributes absent, and renders
/// as its raw text, with color enabled or disabled.
pub proof fn lemma_undecorated_renders_raw_text(v: StyledText, coloring: bool)
    requires
        !v.code.decorated(),
    ensures
        v.code == Code::plain(),
        v.rendered(coloring) == v.text,
{
    assert(v.code.prefix() =~= Seq::<char>::empty());
    assert(v.rendered(coloring) =~= v.text);
}

/// Text made without a styling step is not decorated: the record with
/// every attribute absent decorates nothing, and renders no overhead.
pub proof fn lemma_plain_is_not_decorated(text: Seq<char>, coloring: bool)
    ensures
        !Code::plain().decorated(),
        (StyledText { text, code: Code::plain() }).rendered(coloring) == text,
{
    lemma_undecorated_renders_raw_text(StyledText { text, code: Code::plain() }, coloring);
}

/// The switch acts when a value is rendered and on nothing else. A value
/// rendered after color was disabled is its raw text; rendered after color
/// was enabled again it is what it was while color was enabled before.
pub proof fn lemma_switch_gates_rendering_only(
    v: ColoredString,
    before: Switch,
    disabled: Switch,
    enabled_again: Switch,
)
    requires
        before@,
        !disabled@,
        enabled_again@,
    ensures
        v@.rendered(disabled@) == v@.text,
        v@.rendered(enabled_again@) == v@.rendered(before@),
{
}

/// The escape sequences come in a fixed order. For a value with all five
/// attributes the rendering is the background's sequence, the
/// foreground's, bold, underline, reversed, then the raw text, then the
/// reset.
pub proof fn lemma_escape_order(v: StyledText, fg: Fg, bg: Bg)
    requires
        v.code == (Code {
            fg: Some(fg),
            bg: Some(bg),
            bold: Some(Bold),
            underline: Some(Underline),
            reversed: Some(Reversed),
        }),
    ensures
        v.rendered(true) == escape(bg.param()) + escape(fg.param()) + escape(seq!['1']) + escape(
            seq!['4'],
        ) + escape(seq!['7']) + v.text + reset(),
{
}

} // verus!
