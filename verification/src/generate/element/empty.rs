use vstd::prelude::*;

use crate::generate::element::element_builder::ElementBuilder;
use crate::generate::units::Length;

verus! {

/// An element that takes no room and draws nothing.
#[derive(Clone, Copy, Debug, PartialEq, Eq, Structural)]
pub struct Empty;

impl Empty {
    /// The name of this kind of element, as warnings give it.
    pub fn display_name(&self) -> (name: &'static str)
        ensures
            name@ == "Empty"@,
    {
        "Empty"
    }

    pub fn calculate_width(&self, builder: &ElementBuilder) -> (width: Length)
        ensures
            width@ == 0,
    {
        Length::zero()
    }

    pub fn calculate_height(&self, builder: &ElementBuilder) -> (height: Length)
        ensures
            height@ == 0,
    {
        Length::zero()
    }

    pub fn build(&self, builder: &mut ElementBuilder)
        ensures
            *final(builder) == *old(builder),
    {
    }
}

} // verus!
