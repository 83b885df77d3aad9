//! Two-dimensional vectors of fixed-point numbers.
use crate::fixed::Fixed;
use vstd::prelude::*;

verus! {

/// A point or displacement of the plane.
#[derive(Clone, Copy, Debug, PartialEq, Eq, Structural)]
pub struct Vec2 {
    pub x: Fixed,
    pub y: Fixed,
}

impl Vec2 {
    pub open spec fn spec_new(x: Fixed, y: Fixed) -> Vec2 {
        Vec2 { x, y }
    }

    pub open spec fn spec_zero() -> Vec2 {
        Vec2 { x: Fixed::zero(), y: Fixed::zero() }
    }

    pub open spec fn spec_plus(self, rhs: Vec2) -> Vec2 {
        Vec2 { x: self.x.plus(rhs.x), y: self.y.plus(rhs.y) }
    }

    pub open spec fn spec_scaled(self, factor: Fixed) -> Vec2 {
        Vec2 { x: self.x.times(factor), y: self.y.times(factor) }
    }

    /// The vector with the given components.
    #[verifier::when_used_as_spec(spec_new)]
    pub fn new(x: Fixed, y: Fixed) -> (v: Vec2)
        ensures
            v == Vec2::spec_new(x, y),
    {
        Vec2 { x, y }
    }

    /// The vector from whole-number components given in raw units.
    pub fn from_raw(x: i64, y: i64) -> (v: Vec2)
        ensures
            v.x@ == x,
            v.y@ == y,
    {
        Vec2 { x: Fixed::from_raw(x), y: Fixed::from_raw(y) }
    }

    /// The null vector.
    #[verifier::when_used_as_spec(spec_zero)]
    pub fn zero() -> (v: Vec2)
        ensures
            v == Vec2::spec_zero(),
    {
        Vec2 { x: Fixed::zero(), y: Fixed::zero() }
    }

    /// Component-wise saturating sum.
    #[verifier::when_used_as_spec(spec_plus)]
    pub fn plus(self, rhs: Vec2) -> (v: Vec2)
        ensures
            v == self.spec_plus(rhs),
    {
        Vec2 { x: self.x.plus(rhs.x), y: self.y.plus(rhs.y) }
    }

    /// Both components multiplied by `factor`.
    #[verifier::when_used_as_spec(spec_scaled)]
    pub fn scaled(self, factor: Fixed) -> (v: Vec2)
        ensures
            v == self.spec_scaled(factor),
    {
        Vec2 { x: self.x.times(factor), y: self.y.times(factor) }
    }
}

} // verus!
