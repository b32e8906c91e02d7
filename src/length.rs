//! How much space a widget asks for along one axis.
use vstd::prelude::*;

verus! {

/// The amount of space a widget takes along one axis.
#[derive(Clone, Copy, Debug, PartialEq, Eq, Structural)]
pub enum Length {
    /// Take all the space that is left.
    Fill,
    /// Take a share of the space that is left, in proportion to the given
    /// factor among the siblings that fill.
    FillPortion(u16),
    /// Take as little space as the content needs.
    Shrink,
    /// Take exactly the given number of units.
    Units(u16),
}

} // verus!
