use vstd::prelude::*;

verus! {

/// What is plugged into a controller port.
#[derive(Copy, Clone, Debug)]
pub enum InputPort {
    Empty,
    StandardController {
        a: bool,
        b: bool,
        x: bool,
        y: bool,
        up: bool,
        left: bool,
        right: bool,
        down: bool,
        start: bool,
        select: bool,
        r: bool,
        l: bool,
    },
}

impl InputPort {
    /// A standard controller with no button pressed.
    pub open spec fn released_controller() -> InputPort {
        InputPort::StandardController {
            a: false,
            b: false,
            x: false,
            y: false,
            up: false,
            left: false,
            right: false,
            down: false,
            start: false,
            select: false,
            r: false,
            l: false,
        }
    }

    pub fn default() -> (r: InputPort)
        ensures
            r == InputPort::Empty,
    {
        InputPort::Empty
    }

    pub fn default_standard_controller() -> (r: InputPort)
        ensures
            r == Self::released_controller(),
    {
        InputPort::StandardController {
            a: false,
            b: false,
            x: false,
            y: false,
            up: false,
            left: false,
            right: false,
            down: false,
            start: false,
            select: false,
            r: false,
            l: false,
        }
    }
}

} // verus!
