use vstd::prelude::*;
use crate::shape::Color;

verus! {

/// How much room a UI element asks for along one axis.
pub enum Size {
    /// A share of the room that is left, relative to the other weights.
    Weight(u32),
    /// An exact number of screen pixels.
    Pixels(u32),
    /// All of the room that is left.
    Fill,
}

pub struct Container {
    pub width: Size,
    pub height: Size,
}

pub struct ContainerStyle {
    pub border: Option<Color>,
    pub bg: Option<Color>,
}

} // verus!
