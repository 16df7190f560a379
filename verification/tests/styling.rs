use crayon::palette;
use crayon::{AsAnsi, Code, Color, ColoredString, Switch};

const BG_CODE_LEN: usize = 5;
const FG_CODE_LEN: usize = 5;
const BOLD_CODE_LEN: usize = 4;
const UNDERLINE_CODE_LEN: usize = 4;
const REVERSED_CODE_LEN: usize = 4;
const RESET_CODE_LEN: usize = 4;
const NO_CODE_LEN: usize = 0;

#[test]
fn ut_red() {
    let switch = Switch::new();
    let text = "red".red();
    assert_ne!(text.to_string(&switch), "red");
    assert_eq!(text.get_data(), "red");
    assert_eq!(
        text.to_string(&switch).len(),
        FG_CODE_LEN + text.get_data().len() + RESET_CODE_LEN
    );
    assert_eq!(
        text.as_code().unwrap(),
        &Code {
            bg: None,
            fg: Some(palette::Fg::Red),
            bold: None,
            underline: None,
            reversed: None
        }
    );
}

#[test]
fn ut_normal_str() {
    let text = "plain";
    assert_eq!(text.to_string(), "plain");
    assert_eq!(text.get_data(), "plain");
    assert_eq!(
        text.to_string().len(),
        NO_CODE_LEN + text.get_data().len() + NO_CODE_LEN
    );
    assert_eq!(text.as_code(), None);
}

#[test]
fn ut_colored_string() {
    let switch = Switch::new();
    let text = ColoredString::new();
    assert_eq!(text.to_string(&switch), "");
    assert_eq!(text.get_data(), "");
    assert_eq!(
        text.to_string(&switch).len(),
        NO_CODE_LEN + text.get_data().len() + NO_CODE_LEN
    );
    assert_eq!(
        text.as_code().unwrap(),
        &Code {
            bg: None,
            fg: None,
            bold: None,
            underline: None,
            reversed: None
        }
    );

    let text = ColoredString::from("hello world");
    assert_eq!(text.to_string(&switch), "hello world");
    assert_eq!(text.get_data(), "hello world");
    assert_eq!(
        text.to_string(&switch).len(),
        NO_CODE_LEN + text.get_data().len() + NO_CODE_LEN
    );
    assert_eq!(
        text.as_code().unwrap(),
        &Code {
            bg: None,
            fg: None,
            bold: None,
            underline: None,
            reversed: None
        }
    );
}

#[test]
fn ut_overlap_colors() {
    let switch = Switch::new();
    let mut text = "go".green().yellow().blue();
    assert_ne!(text.to_string(&switch), "go");
    assert_eq!(text.get_data(), "go");
    assert_eq!(
        text.to_string(&switch).len(),
        FG_CODE_LEN + text.get_data().len() + RESET_CODE_LEN
    );
    assert_eq!(
        text.as_code().unwrap(),
        &Code {
            bg: None,
            fg: Some(palette::Fg::Blue),
            bold: None,
            underline: None,
            reversed: None
        }
    );
    // swap out the foreground color
    text = text.black().bg_yellow().bg_cyan();
    assert_ne!(text.to_string(&switch), "go");
    assert_eq!(text.get_data(), "go");
    assert_eq!(
        text.to_string(&switch).len(),
        FG_CODE_LEN + BG_CODE_LEN + text.get_data().len() + RESET_CODE_LEN
    );
    assert_eq!(
        text.as_code().unwrap(),
        &Code {
            bg: Some(palette::Bg::Cyan),
            fg: Some(palette::Fg::Black),
            bold: None,
            underline: None,
            reversed: None
        }
    );
}

#[test]
fn ut_full_code() {
    let switch = Switch::new();
    let text = "Go".blue().bold().underline().reversed().bg_white();
    assert_ne!(text.to_string(&switch), "Go");
    assert_eq!(text.get_data(), "Go");
    assert_eq!(
        text.to_string(&switch).len(),
        FG_CODE_LEN
            + BG_CODE_LEN
            + BOLD_CODE_LEN
            + UNDERLINE_CODE_LEN
            + REVERSED_CODE_LEN
            + text.get_data().len()
            + RESET_CODE_LEN
    );
    assert_eq!(
        text.as_code().unwrap(),
        &Code {
            bg: Some(palette::Bg::White),
            fg: Some(palette::Fg::Blue),
            bold: Some(palette::Bold),
            underline: Some(palette::Underline),
            reversed: Some(palette::Reversed)
        }
    );
}
