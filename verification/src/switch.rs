//! The color switch: whether styles are rendered as escape sequences.
//!
//! The switch is a value. A program that wants one setting for all of its
//! output keeps one switch and hands it to every rendering.

use vstd::prelude::*;

verus! {

const ON: bool = true;

const OFF: bool = false;

/// The switch that rendering consults. It starts enabled and changes only
/// through `enable_color` and `disable_color`.
#[derive(Debug)]
pub struct Switch {
    coloring: bool,
}

impl View for Switch {
    type V = bool;

    /// `true` while color is enabled.
    closed spec fn view(&self) -> bool {
        self.coloring
    }
}

impl Switch {
    /// A switch in its initial state: enabled.
    pub fn new() -> (switch: Switch)
        ensures
            switch@,
    {
        Switch { coloring: ON }
    }
}

/// Turns color on: text rendered with this switch from now on carries its
/// escape sequences.
pub fn enable_color(switch: &mut Switch)
    ensures
        final(switch)@,
{
    switch.coloring = ON;
}

/// Turns color off: text rendered with this switch from now on is the raw
/// text. The attributes of styled values are left as they are.
pub fn disable_color(switch: &mut Switch)
    ensures
        !final(switch)@,
{
    switch.coloring = OFF;
}

/// Reads the switch.
pub(crate) fn is_coloring(switch: &Switch) -> (coloring: bool)
    ensures
        coloring == switch@,
{
    switch.coloring
}

} // verus!
