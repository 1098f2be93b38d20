use vstd::prelude::*;

verus! {

/// Units per millimetre.
pub const UNITS_PER_MM: i64 = 36_000;

/// Units per typographic point (1/72 inch).
pub const UNITS_PER_PT: i64 = 12_700;

/// Units per pixel of an image placed at 300 pixels per inch.
pub const UNITS_PER_PX: i64 = 3_048;

/// The value nearest to `v` that a length can hold.
pub open spec fn saturate(v: int) -> i64 {
    if v < i64::MIN {
        i64::MIN
    } else if v > i64::MAX {
        i64::MAX
    } else {
        v as i64
    }
}

/// `a * b / d` rounded towards zero, for a positive divisor.
pub open spec fn scaled(a: int, b: int, d: int) -> int {
    if a * b >= 0 {
        (a * b) / d
    } else {
        -((-(a * b)) / d)
    }
}

fn saturate_wide(v: i128) -> (r: i64)
    ensures
        r == saturate(v as int),
{
    if v < i64::MIN as i128 {
        i64::MIN
    } else if v > i64::MAX as i128 {
        i64::MAX
    } else {
        v as i64
    }
}

/// A length or coordinate on the page, counted in units of 1/914400 inch, so
/// that millimetres, points and 300-dpi pixels are all whole numbers of units.
///
/// Arithmetic saturates at the ends of the `i64` range instead of wrapping.
#[derive(Clone, Copy, Debug, PartialEq, Eq, Structural)]
pub struct Length {
    pub units: i64,
}

impl View for Length {
    type V = int;

    open spec fn view(&self) -> int {
        self.units as int
    }
}

impl Length {
    /// The length nearest to `v` units.
    pub open spec fn of(v: int) -> Length {
        Length { units: saturate(v) }
    }

    /// The sum, kept within what a length can hold.
    pub open spec fn spec_plus(self, other: Length) -> Length {
        Length::of(self@ + other@)
    }

    /// The difference, kept within what a length can hold.
    pub open spec fn spec_minus(self, other: Length) -> Length {
        Length::of(self@ - other@)
    }

    /// `count` times this length, kept within what a length can hold.
    pub open spec fn spec_times(self, count: nat) -> Length {
        Length::of(self@ * count)
    }

    /// The greater of the two.
    pub open spec fn spec_max(self, other: Length) -> Length {
        if self@ >= other@ {
            self
        } else {
            other
        }
    }

    /// The lesser of the two.
    pub open spec fn spec_min(self, other: Length) -> Length {
        if self@ <= other@ {
            self
        } else {
            other
        }
    }

    /// This length times `num / den`, rounded towards zero and kept within
    /// what a length can hold.
    pub open spec fn spec_scale(self, num: int, den: int) -> Length {
        Length::of(scaled(self@, num, den))
    }

    /// How many whole `unit`s fit into `self`; none when either is not positive.
    pub open spec fn spec_whole(self, unit: Length) -> nat {
        if self@ <= 0 || unit@ <= 0 {
            0
        } else {
            (self@ / unit@) as nat
        }
    }

    /// No length at all.
    pub fn zero() -> (r: Length)
        ensures
            r@ == 0,
    {
        Length { units: 0 }
    }

    /// The length of so many units.
    pub fn from_units(units: i64) -> (r: Length)
        ensures
            r@ == units,
    {
        Length { units }
    }

    /// The length of so many millimetres.
    pub fn from_mm(mm: i64) -> (r: Length)
        ensures
            r == Length::of(mm * UNITS_PER_MM),
    {
        let factor: i128 = 36_000;
        Length { units: saturate_wide(mm as i128 * factor) }
    }

    /// The length of so many points.
    pub fn from_pt(pt: i64) -> (r: Length)
        ensures
            r == Length::of(pt * UNITS_PER_PT),
    {
        let factor: i128 = 12_700;
        Length { units: saturate_wide(pt as i128 * factor) }
    }

    /// The size on the page of `px` pixels at 300 pixels per inch.
    pub fn from_px(px: usize) -> (r: Length)
        ensures
            r == Length::of(px * UNITS_PER_PX),
    {
        let factor: i128 = 3_048;
        Length { units: saturate_wide(px as i128 * factor) }
    }

    /// The sum of the two lengths. It stops at the greatest and the least
    /// length there is.
    pub fn plus(self, other: Length) -> (r: Length)
        ensures
            r == self.spec_plus(other),
    {
        Length { units: saturate_wide(self.units as i128 + other.units as i128) }
    }

    /// This length less `other`. It stops at the greatest and the least
    /// length there is.
    pub fn minus(self, other: Length) -> (r: Length)
        ensures
            r == self.spec_minus(other),
    {
        Length { units: saturate_wide(self.units as i128 - other.units as i128) }
    }

    /// `count` times this length.
    pub fn times(self, count: usize) -> (r: Length)
        ensures
            r == self.spec_times(count as nat),
    {
        let wide: i128 = self.units as i128;
        let n: i128 = count as i128;
        assert(-0x8000_0000_0000_0000 * 0xffff_ffff_ffff_ffff <= wide * n
            <= 0x8000_0000_0000_0000 * 0xffff_ffff_ffff_ffff) by (nonlinear_arith)
            requires
                -0x8000_0000_0000_0000 <= wide <= 0x8000_0000_0000_0000,
                0 <= n <= 0xffff_ffff_ffff_ffff,
        ;
        Length { units: saturate_wide(wide * n) }
    }

    /// The greater of the two lengths.
    pub fn max(self, other: Length) -> (r: Length)
        ensures
            r == self.spec_max(other),
    {
        if self.units >= other.units {
            self
        } else {
            other
        }
    }

    /// The lesser of the two lengths.
    pub fn min(self, other: Length) -> (r: Length)
        ensures
            r == self.spec_min(other),
    {
        if self.units <= other.units {
            self
        } else {
            other
        }
    }

    /// Whether this length is less than `other`.
    pub fn less_than(self, other: Length) -> (r: bool)
        ensures
            r == (self@ < other@),
    {
        self.units < other.units
    }

    /// Whether this length is `other` or less.
    pub fn at_most(self, other: Length) -> (r: bool)
        ensures
            r == (self@ <= other@),
    {
        self.units <= other.units
    }

    /// This length times `num / den`, rounded towards zero.
    pub fn scale(self, num: i64, den: i64) -> (r: Length)
        requires
            den > 0,
        ensures
            r == self.spec_scale(num as int, den as int),
    {
        let a: i128 = self.units as i128;
        let b: i128 = num as i128;
        assert(-0x8000_0000_0000_0000 * 0x8000_0000_0000_0000 <= a * b
            <= 0x8000_0000_0000_0000 * 0x8000_0000_0000_0000) by (nonlinear_arith)
            requires
                -0x8000_0000_0000_0000 <= a <= 0x8000_0000_0000_0000,
                -0x8000_0000_0000_0000 <= b <= 0x8000_0000_0000_0000,
        ;
        let product: i128 = a * b;
        let d: i128 = den as i128;
        if product >= 0 {
            saturate_quotient(product / d)
        } else {
            let q: i128 = (-product) / d;
            saturate_quotient(-q)
        }
    }

    /// How many whole `unit`s fit into this length.
    pub fn whole(self, unit: Length) -> (r: usize)
        ensures
            r == saturate_count(self.spec_whole(unit)),
    {
        if self.units <= 0 || unit.units <= 0 {
            0
        } else {
            let q: i64 = self.units / unit.units;
            if q as u64 > usize::MAX as u64 {
                usize::MAX
            } else {
                q as usize
            }
        }
    }
}

/// The count nearest to `n` that a `usize` can hold.
pub open spec fn saturate_count(n: nat) -> usize {
    if n > usize::MAX {
        usize::MAX
    } else {
        n as usize
    }
}

fn saturate_quotient(v: i128) -> (r: Length)
    ensures
        r == Length::of(v as int),
{
    Length { units: saturate_wide(v) }
}

/// A position on the page. `y` grows upwards from the bottom edge, so content
/// that flows down the page lowers `y`.
#[derive(Clone, Copy, Debug, PartialEq, Eq, Structural)]
pub struct Point {
    pub x: Length,
    pub y: Length,
}

impl Point {
    pub fn new(x: Length, y: Length) -> (r: Point)
        ensures
            r == (Point { x, y }),
    {
        Point { x, y }
    }
}

} // verus!
