//! The space between a widget's bounds and its content.
use vstd::prelude::*;

verus! {

/// The space left free on each side of a widget's content, in units.
#[derive(Clone, Copy, Debug, PartialEq, Eq, Structural)]
pub struct Padding {
    /// Space above the content.
    pub top: u16,
    /// Space to the right of the content.
    pub right: u16,
    /// Space below the content.
    pub bottom: u16,
    /// Space to the left of the content.
    pub left: u16,
}

/// The padding with `amount` on every side.
pub open spec fn uniform(amount: u16) -> Padding {
    Padding { top: amount, right: amount, bottom: amount, left: amount }
}

/// The padding with `vertical` above and below and `horizontal` left and right.
pub open spec fn symmetric(vertical: u16, horizontal: u16) -> Padding {
    Padding { top: vertical, right: horizontal, bottom: vertical, left: horizontal }
}

impl Padding {
    /// Creates a padding with the same amount on every side.
    pub fn new(amount: u16) -> (r: Padding)
        ensures
            r == uniform(amount),
    {
        Padding { top: amount, right: amount, bottom: amount, left: amount }
    }
}

/// One amount for every side.
impl From<u16> for Padding {
    fn from(amount: u16) -> (r: Padding) {
        Padding::new(amount)
    }
}

impl vstd::std_specs::convert::FromSpecImpl<u16> for Padding {
    open spec fn obeys_from_spec() -> bool {
        true
    }

    open spec fn from_spec(amount: u16) -> Padding {
        uniform(amount)
    }
}

/// The vertical amount first, then the horizontal one.
impl From<[u16; 2]> for Padding {
    fn from(amounts: [u16; 2]) -> (r: Padding) {
        Padding { top: amounts[0], right: amounts[1], bottom: amounts[0], left: amounts[1] }
    }
}

impl vstd::std_specs::convert::FromSpecImpl<[u16; 2]> for Padding {
    open spec fn obeys_from_spec() -> bool {
        true
    }

    open spec fn from_spec(amounts: [u16; 2]) -> Padding {
        symmetric(amounts@[0], amounts@[1])
    }
}

/// Top, right, bottom and left, clockwise from the top.
impl From<[u16; 4]> for Padding {
    fn from(amounts: [u16; 4]) -> (r: Padding) {
        Padding { top: amounts[0], right: amounts[1], bottom: amounts[2], left: amounts[3] }
    }
}

impl vstd::std_specs::convert::FromSpecImpl<[u16; 4]> for Padding {
    open spec fn obeys_from_spec() -> bool {
        true
    }

    open spec fn from_spec(amounts: [u16; 4]) -> Padding {
        Padding { top: amounts@[0], right: amounts@[1], bottom: amounts@[2], left: amounts@[3] }
    }
}

} // verus!
