//! The palette: three decorations and eight colors for foreground and
//! background, each with the parameter it puts into an escape sequence.

use vstd::prelude::*;
use vstd::string::StringExecFns;

verus! {

/// The bold decoration.
#[derive(Debug, PartialEq, Eq, Structural, Clone, Copy)]
pub struct Bold;

/// The underline decoration.
#[derive(Debug, PartialEq, Eq, Structural, Clone, Copy)]
pub struct Underline;

/// The reversed-video decoration.
#[derive(Debug, PartialEq, Eq, Structural, Clone, Copy)]
pub struct Reversed;

/// The eight standard foreground colors.
#[derive(Debug, PartialEq, Eq, Structural, Clone, Copy)]
pub enum Fg {
    Black,
    Red,
    Green,
    Yellow,
    Blue,
    Magenta,
    Cyan,
    White,
}

/// The eight standard background colors.
#[derive(Debug, PartialEq, Eq, Structural, Clone, Copy)]
pub enum Bg {
    Black,
    Red,
    Green,
    Yellow,
    Blue,
    Magenta,
    Cyan,
    White,
}

impl Bold {
    /// The parameter of the bold sequence: `1`.
    pub open spec fn param(self) -> Seq<char> {
        seq!['1']
    }

    /// The parameter as text.
    pub fn to_string(&self) -> (s: String)
        ensures
            s@ == self.param(),
    {
        proof {
            reveal_strlit("1");
        }
        String::from_str("1")
    }
}

impl Underline {
    /// The parameter of the underline sequence: `4`.
    pub open spec fn param(self) -> Seq<char> {
        seq!['4']
    }

    /// The parameter as text.
    pub fn to_string(&self) -> (s: String)
        ensures
            s@ == self.param(),
    {
        proof {
            reveal_strlit("4");
        }
        String::from_str("4")
    }
}

impl Reversed {
    /// The parameter of the reversed-video sequence: `7`.
    pub open spec fn param(self) -> Seq<char> {
        seq!['7']
    }

    /// The parameter as text.
    pub fn to_string(&self) -> (s: String)
        ensures
            s@ == self.param(),
    {
        proof {
            reveal_strlit("7");
        }
        String::from_str("7")
    }
}

impl Fg {
    /// The parameter of the color's sequence: `30` for black up to `37` for
    /// white.
    pub open spec fn param(self) -> Seq<char> {
        match self {
            Fg::Black => seq!['3', '0'],
            Fg::Red => seq!['3', '1'],
            Fg::Green => seq!['3', '2'],
            Fg::Yellow => seq!['3', '3'],
            Fg::Blue => seq!['3', '4'],
            Fg::Magenta => seq!['3', '5'],
            Fg::Cyan => seq!['3', '6'],
            Fg::White => seq!['3', '7'],
        }
    }

    /// The parameter as text.
    pub fn to_string(&self) -> (s: String)
        ensures
            s@ == self.param(),
    {
        proof {
            reveal_strlit("30");
            reveal_strlit("31");
            reveal_strlit("32");
            reveal_strlit("33");
            reveal_strlit("34");
            reveal_strlit("35");
            reveal_strlit("36");
            reveal_strlit("37");
        }
        String::from_str(
            match self {
                Fg::Black => "30",
                Fg::Red => "31",
                Fg::Green => "32",
                Fg::Yellow => "33",
                Fg::Blue => "34",
                Fg::Magenta => "35",
                Fg::Cyan => "36",
                Fg::White => "37",
            },
        )
    }
}

impl Bg {
    /// The parameter of the color's sequence: `40` for black up to `47` for
    /// white.
    pub open spec fn param(self) -> Seq<char> {
        match self {
            Bg::Black => seq!['4', '0'],
            Bg::Red => seq!['4', '1'],
            Bg::Green => seq!['4', '2'],
            Bg::Yellow => seq!['4', '3'],
            Bg::Blue => seq!['4', '4'],
            Bg::Magenta => seq!['4', '5'],
            Bg::Cyan => seq!['4', '6'],
            Bg::White => seq!['4', '7'],
        }
    }

    /// The parameter as text.
    pub fn to_string(&self) -> (s: String)
        ensures
            s@ == self.param(),
    {
        proof {
            reveal_strlit("40");
            reveal_strlit("41");
            reveal_strlit("42");
            reveal_strlit("43");
            reveal_strlit("44");
            reveal_strlit("45");
            reveal_strlit("46");
            reveal_strlit("47");
        }
        String::from_str(
            match self {
                Bg::Black => "40",
                Bg::Red => "41",
                Bg::Green => "42",
                Bg::Yellow => "43",
                Bg::Blue => "44",
                Bg::Magenta => "45",
                Bg::Cyan => "46",
                Bg::White => "47",
            },
        )
    }
}

} // verus!
