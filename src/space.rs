//! Rectangles, axes and alignment: the geometry that layouts work with.
use vstd::prelude::*;

use crate::output::{Error, Outcome};

verus! {

/// A rectangle on the screen in (X, Y, W, H) format, counted from the top left.
#[derive(Clone, Copy, Debug, PartialEq, Eq, Structural)]
pub struct Area(pub u16, pub u16, pub u16, pub u16);

/// Whether an area of the given size offers at least the given minimum.
pub open spec fn fits(w: u16, h: u16, min_w: u16, min_h: u16) -> bool {
    w >= min_w && h >= min_h
}

/// `a - b`, or zero where `b` is larger.
pub open spec fn sat_sub(a: u16, b: u16) -> u16 {
    if a >= b { (a - b) as u16 } else { 0 }
}

/// `a + b`, or the largest `u16` where the sum does not fit.
pub open spec fn sat_add(a: u16, b: u16) -> u16 {
    if a + b <= u16::MAX { (a + b) as u16 } else { u16::MAX }
}

/// What checking `area` against the minimum `min` returns: the area itself
/// where it fits, an insufficient-space error naming both otherwise.
pub open spec fn min_checked(area: &Area, min: (u16, u16), r: Outcome<&Area>) -> bool {
    if fits(area.2, area.3, min.0, min.1) {
        r == Ok::<&Area, Error>(area)
    } else {
        r == Err::<&Area, Error>(Error::NoSpace(*area, min.0, min.1))
    }
}

/// Checking an area against a minimum is a pure test: two checks of the
/// same area against the same minimum give the same result.
pub proof fn lemma_min_repeatable(area: &Area, min: (u16, u16), first: Outcome<&Area>, second: Outcome<&Area>)
    requires
        min_checked(area, min, first),
        min_checked(area, min, second),
    ensures
        first == second,
        first is Ok <==> fits(area.2, area.3, min.0, min.1),
{
}

impl Area {
    /// The horizontal position.
    pub fn x(&self) -> (r: u16)
        ensures
            r == self.0,
    {
        self.0
    }

    /// The vertical position.
    pub fn y(&self) -> (r: u16)
        ensures
            r == self.1,
    {
        self.1
    }

    /// The width.
    pub fn w(&self) -> (r: u16)
        ensures
            r == self.2,
    {
        self.2
    }

    /// The height.
    pub fn h(&self) -> (r: u16)
        ensures
            r == self.3,
    {
        self.3
    }

    /// The width and the height.
    pub fn size(&self) -> (r: (u16, u16))
        ensures
            r == (self.2, self.3),
    {
        (self.2, self.3)
    }

    /// Returns this area unchanged where it is at least `min_w` wide and
    /// `min_h` high, and an insufficient-space error otherwise.
    pub fn min(&self, min: (u16, u16)) -> (r: Outcome<&Area>)
        ensures
            min_checked(self, min, r),
    {
        let (min_w, min_h) = min;
        if self.2 < min_w || self.3 < min_h {
            Err(Error::NoSpace(*self, min_w, min_h))
        } else {
            Ok(self)
        }
    }

    /// The area moved right by `dx` and down by `dy`, and shrunk by as much.
    pub open spec fn offset_spec(self, dx: u16, dy: u16) -> Area {
        Area(sat_add(self.0, dx), sat_add(self.1, dy), sat_sub(self.2, dx), sat_sub(self.3, dy))
    }

    /// The area moved right by `dx` and down by `dy`, and shrunk by as much,
    /// so that it keeps its bottom right corner. Sizes stop at zero and
    /// positions at the largest `u16`.
    pub fn offset(&self, dx: u16, dy: u16) -> (r: Area)
        ensures
            r == self.offset_spec(dx, dy),
    {
        Area(
            self.0.saturating_add(dx),
            self.1.saturating_add(dy),
            self.2.saturating_sub(dx),
            self.3.saturating_sub(dy),
        )
    }
}

/// A point on the screen.
pub trait Point {
    /// The column and the row.
    spec fn coords(&self) -> (u16, u16);

    /// The column.
    fn x(&self) -> (r: u16)
        ensures
            r == self.coords().0,
    ;

    /// The row.
    fn y(&self) -> (r: u16)
        ensures
            r == self.coords().1,
    ;
}

impl Point for (u16, u16) {
    open spec fn coords(&self) -> (u16, u16) {
        *self
    }

    fn x(&self) -> (r: u16) {
        self.0
    }

    fn y(&self) -> (r: u16) {
        self.1
    }
}

impl Point for [u16; 2] {
    open spec fn coords(&self) -> (u16, u16) {
        (self@[0], self@[1])
    }

    fn x(&self) -> (r: u16) {
        self[0]
    }

    fn y(&self) -> (r: u16) {
        self[1]
    }
}

/// A rectangle, given by position and size.
pub trait Rect {
    /// The rectangle as an area.
    spec fn rect(&self) -> Area;

    /// The horizontal position.
    fn x(&self) -> (r: u16)
        ensures
            r == self.rect().0,
    ;

    /// The vertical position.
    fn y(&self) -> (r: u16)
        ensures
            r == self.rect().1,
    ;

    /// The width.
    fn w(&self) -> (r: u16)
        ensures
            r == self.rect().2,
    ;

    /// The height.
    fn h(&self) -> (r: u16)
        ensures
            r == self.rect().3,
    ;

    /// The width and the height.
    fn size(&self) -> (r: (u16, u16))
        ensures
            r == (self.rect().2, self.rect().3),
    {
        (self.w(), self.h())
    }
}

impl Rect for (u16, u16, u16, u16) {
    open spec fn rect(&self) -> Area {
        Area(self.0, self.1, self.2, self.3)
    }

    fn x(&self) -> (r: u16) {
        self.0
    }

    fn y(&self) -> (r: u16) {
        self.1
    }

    fn w(&self) -> (r: u16) {
        self.2
    }

    fn h(&self) -> (r: u16) {
        self.3
    }
}

impl Rect for [u16; 4] {
    open spec fn rect(&self) -> Area {
        Area(self@[0], self@[1], self@[2], self@[3])
    }

    fn x(&self) -> (r: u16) {
        self[0]
    }

    fn y(&self) -> (r: u16) {
        self[1]
    }

    fn w(&self) -> (r: u16) {
        self[2]
    }

    fn h(&self) -> (r: u16) {
        self[3]
    }
}

/// X (left to right), Y (top to bottom), or Z (back to front).
#[derive(Clone, Copy, Debug, PartialEq, Eq, Structural)]
pub enum Axis {
    X,
    Y,
    Z,
}

/// Direction in which to perform alignment.
#[derive(Clone, Copy, Debug, PartialEq, Eq, Structural)]
pub enum Align {
    TopLeft,
    Top,
    TopRight,
    Left,
    Center,
    Right,
    BottomLeft,
    Bottom,
    BottomRight,
}

impl Default for Align {
    /// Centered.
    fn default() -> (r: Align)
        ensures
            r == Align::Center,
    {
        Align::Center
    }
}

} // verus!
