use vstd::prelude::*;

use crate::generate::units::Length;

verus! {

/// Space kept free on the four sides of a region.
#[derive(Clone, Copy, Debug, PartialEq, Eq, Structural)]
pub struct Padding {
    pub top: Length,
    pub bottom: Length,
    pub left: Length,
    pub right: Length,
}

impl Padding {
    pub fn new(top: Length, bottom: Length, left: Length, right: Length) -> (r: Padding)
        ensures
            r == (Padding { top, bottom, left, right }),
    {
        Padding { top, bottom, left, right }
    }

    pub fn none() -> (r: Padding)
        ensures
            r == Padding::uniform(Length { units: 0 }),
    {
        let zero = Length::zero();
        Padding { top: zero, bottom: zero, left: zero, right: zero }
    }

    /// The padding with `padding` on every side.
    pub open spec fn uniform(padding: Length) -> Padding {
        Padding { top: padding, bottom: padding, left: padding, right: padding }
    }

    pub fn all(padding: Length) -> (r: Padding)
        ensures
            r == Padding::uniform(padding),
    {
        Padding { top: padding, bottom: padding, left: padding, right: padding }
    }

    pub fn xy(x: Length, y: Length) -> (r: Padding)
        ensures
            r == (Padding { top: y, bottom: y, left: x, right: x }),
    {
        Padding { top: y, bottom: y, left: x, right: x }
    }

    pub fn x(x: Length) -> (r: Padding)
        ensures
            r == (Padding { left: x, right: x, ..Padding::uniform(Length { units: 0 }) }),
    {
        let zero = Length::zero();
        Padding { top: zero, bottom: zero, left: x, right: x }
    }

    pub fn y(y: Length) -> (r: Padding)
        ensures
            r == (Padding { top: y, bottom: y, ..Padding::uniform(Length { units: 0 }) }),
    {
        let zero = Length::zero();
        Padding { top: y, bottom: y, left: zero, right: zero }
    }

    pub fn top(val: Length) -> (r: Padding)
        ensures
            r == (Padding { top: val, ..Padding::uniform(Length { units: 0 }) }),
    {
        let zero = Length::zero();
        Padding { top: val, bottom: zero, left: zero, right: zero }
    }

    pub fn bottom(val: Length) -> (r: Padding)
        ensures
            r == (Padding { bottom: val, ..Padding::uniform(Length { units: 0 }) }),
    {
        let zero = Length::zero();
        Padding { top: zero, bottom: val, left: zero, right: zero }
    }

    pub fn left(val: Length) -> (r: Padding)
        ensures
            r == (Padding { left: val, ..Padding::uniform(Length { units: 0 }) }),
    {
        let zero = Length::zero();
        Padding { top: zero, bottom: zero, left: val, right: zero }
    }

    pub fn right(val: Length) -> (r: Padding)
        ensures
            r == (Padding { right: val, ..Padding::uniform(Length { units: 0 }) }),
    {
        let zero = Length::zero();
        Padding { top: zero, bottom: zero, left: zero, right: val }
    }
}

} // verus!
