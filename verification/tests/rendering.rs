use crayon::palette::{Bg, Bold, Fg, Reversed, Underline};
use crayon::{disable_color, enable_color, AsAnsi, Code, Color, ColoredString, Switch};

#[test]
fn red_renders_code_text_reset() {
    let switch = Switch::new();
    let text = "red".red();
    assert_eq!(text.to_string(&switch), "\u{1b}[31mred\u{1b}[0m");
    assert_eq!(text.to_string(&switch).len(), 12);
}

#[test]
fn foreground_only_adds_nine() {
    let switch = Switch::new();
    for raw in ["", "a", "hello world", "a much longer line of text, with punctuation."] {
        let text = raw.cyan();
        assert_eq!(text.to_string(&switch).len(), raw.len() + 9);
        assert_eq!(text.to_string(&switch).chars().count(), raw.chars().count() + 9);
    }
}

#[test]
fn full_code_adds_twenty_six() {
    let switch = Switch::new();
    for raw in ["", "Go", "hello world"] {
        let text = raw.bg_red().white().reversed().underline().bold();
        assert_eq!(text.to_string(&switch).len(), raw.len() + 26);
        assert_eq!(text.to_string(&switch).chars().count(), raw.chars().count() + 26);
    }
}

#[test]
fn overhead_is_the_same_for_text_beyond_ascii() {
    let switch = Switch::new();
    let raw = "héllo wörld ✓";
    let text = raw.yellow();
    assert_eq!(text.get_data(), raw);
    assert_eq!(text.to_string(&switch), "\u{1b}[33mhéllo wörld ✓\u{1b}[0m");
    assert_eq!(text.to_string(&switch).len(), raw.len() + 9);
    assert_eq!(text.to_string(&switch).chars().count(), raw.chars().count() + 9);
    let full = raw.yellow().bg_black().bold().underline().reversed();
    assert_eq!(full.to_string(&switch).len(), raw.len() + 26);
}

#[test]
fn empty_text_with_a_style_renders_code_and_reset() {
    let switch = Switch::new();
    assert_eq!("".red().to_string(&switch), "\u{1b}[31m\u{1b}[0m");
}

#[test]
fn overlapping_colors_render_the_last() {
    let switch = Switch::new();
    let text = "go".green().yellow().blue();
    assert_eq!(text.get_data(), "go");
    assert_eq!(
        text.as_code(),
        Some(&Code { fg: Some(Fg::Blue), bg: None, bold: None, underline: None, reversed: None })
    );
    assert_eq!(text.to_string(&switch), "\u{1b}[34mgo\u{1b}[0m");
}

#[test]
fn full_code_renders_in_fixed_order() {
    let switch = Switch::new();
    let text = "Go".blue().bold().underline().reversed().bg_white();
    assert_eq!(
        text.as_code(),
        Some(&Code {
            fg: Some(Fg::Blue),
            bg: Some(Bg::White),
            bold: Some(Bold),
            underline: Some(Underline),
            reversed: Some(Reversed),
        })
    );
    let out = text.to_string(&switch);
    assert_eq!(out, "\u{1b}[47m\u{1b}[34m\u{1b}[1m\u{1b}[4m\u{1b}[7mGo\u{1b}[0m");
    assert_eq!(out.len(), 28);
    // background, foreground, bold, underline, reversed, text, reset
    assert_eq!(&out[0..5], "\u{1b}[47m");
    assert_eq!(&out[5..10], "\u{1b}[34m");
    assert_eq!(&out[10..14], "\u{1b}[1m");
    assert_eq!(&out[14..18], "\u{1b}[4m");
    assert_eq!(&out[18..22], "\u{1b}[7m");
    assert_eq!(&out[22..24], "Go");
    assert_eq!(&out[24..28], "\u{1b}[0m");
}

#[test]
fn order_of_calls_does_not_change_the_rendering() {
    let switch = Switch::new();
    let one = "Go".blue().bold().underline().reversed().bg_white();
    let other = "Go".bg_white().reversed().underline().bold().blue();
    assert_eq!(one.to_string(&switch), other.to_string(&switch));
    assert_eq!(one, other);
}

#[test]
fn each_attribute_has_a_sequence_of_its_own() {
    let switch = Switch::new();
    let out = "x".red().bg_green().to_string(&switch);
    assert_eq!(out, "\u{1b}[42m\u{1b}[31mx\u{1b}[0m");
    assert!(!out.contains(';'));
    let out = "x".bold().underline().to_string(&switch);
    assert_eq!(out, "\u{1b}[1m\u{1b}[4mx\u{1b}[0m");
    let out = "x".reversed().bg_magenta().to_string(&switch);
    assert_eq!(out, "\u{1b}[45m\u{1b}[7mx\u{1b}[0m");
}

#[test]
fn undecorated_text_renders_bare() {
    let mut switch = Switch::new();
    let text = ColoredString::from("hello world");
    assert!(!text.as_code().unwrap().is_decorated());
    assert_eq!(text.as_code(), Some(&Code::new()));
    assert_eq!(text.to_string(&switch), "hello world");
    disable_color(&mut switch);
    assert_eq!(text.to_string(&switch), "hello world");
    let empty = ColoredString::new();
    assert_eq!(empty.to_string(&switch), "");
    enable_color(&mut switch);
    assert_eq!(empty.to_string(&switch), "");
}

#[test]
fn existing_escapes_in_the_text_are_kept_verbatim() {
    let switch = Switch::new();
    let inner = "in".red().to_string(&switch);
    let outer = inner.as_str().bold();
    assert_eq!(outer.get_data(), "\u{1b}[31min\u{1b}[0m");
    assert_eq!(outer.to_string(&switch), "\u{1b}[1m\u{1b}[31min\u{1b}[0m\u{1b}[0m");
}

#[test]
fn same_color_front_and_back_is_rendered_as_asked() {
    let switch = Switch::new();
    let text = "x".red().bg_red();
    assert_eq!(
        text.as_code(),
        Some(&Code { fg: Some(Fg::Red), bg: Some(Bg::Red), bold: None, underline: None, reversed: None })
    );
    assert_eq!(text.to_string(&switch), "\u{1b}[41m\u{1b}[31mx\u{1b}[0m");
}

#[test]
fn rendering_leaves_the_value_as_it_was() {
    let switch = Switch::new();
    let text = "x".red().bold();
    let before = text.clone();
    let first = text.to_string(&switch);
    let second = text.to_string(&switch);
    assert_eq!(first, second);
    assert_eq!(text, before);
}
