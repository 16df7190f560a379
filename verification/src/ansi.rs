//! What a value must answer to be styled: its raw text and the style it
//! already carries.

use vstd::prelude::*;
use crate::code::Code;

verus! {

/// A value that has raw text and possibly a style of its own.
pub trait AsAnsi {
    /// The style record that the value stores, `None` for a value that
    /// stores none.
    spec fn code(&self) -> Option<Code>;

    /// The raw text of the value, free of escape sequences.
    spec fn data(&self) -> Seq<char>;

    /// References the style record of the value. `None` says that the type
    /// keeps no record.
    fn as_code(&self) -> (code: Option<&Code>)
        ensures
            code == match self.code() {
                Some(c) => Some(&c),
                None => None,
            },
    ;

    /// References the raw text of the value.
    fn get_data(&self) -> (data: &str)
        ensures
            data@ == self.data(),
    ;
}

impl AsAnsi for str {
    open spec fn code(&self) -> Option<Code> {
        None
    }

    open spec fn data(&self) -> Seq<char> {
        self@
    }

    fn as_code(&self) -> (code: Option<&Code>) {
        None
    }

    fn get_data(&self) -> (data: &str) {
        self
    }
}

impl AsAnsi for String {
    open spec fn code(&self) -> Option<Code> {
        None
    }

    open spec fn data(&self) -> Seq<char> {
        self@
    }

    fn as_code(&self) -> (code: Option<&Code>) {
        None
    }

    fn get_data(&self) -> (data: &str) {
        self.as_str()
    }
}

} // verus!
