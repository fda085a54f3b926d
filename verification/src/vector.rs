//! Points and directions of three-dimensional space.

use vstd::prelude::*;
use crate::scalar::{equal, negate, negation, same, ONE, ZERO};

verus! {

/// A point or a direction in cartesian coordinates x, y, z, each a
/// single-precision number held by its bit pattern.
#[derive(Clone, Copy, Debug)]
pub struct Vec3(pub u32, pub u32, pub u32);

impl Vec3 {
    /// The vector with every component negated.
    pub open spec fn negated(self) -> Vec3 {
        Vec3(negation(self.0), negation(self.1), negation(self.2))
    }

    /// Component by component the two vectors hold equal numbers.
    pub open spec fn matches(self, other: Vec3) -> bool {
        equal(self.0, other.0) && equal(self.1, other.1) && equal(self.2, other.2)
    }

    /// The direction (1, 1, 1), from which every search starts.
    pub fn ones() -> (r: Vec3)
        ensures
            r == Vec3(ONE, ONE, ONE),
    {
        Vec3(ONE, ONE, ONE)
    }
}

impl Default for Vec3 {
    /// The origin, with three positive zeros.
    fn default() -> (r: Vec3)
        ensures
            r == Vec3(ZERO, ZERO, ZERO),
    {
        Vec3(ZERO, ZERO, ZERO)
    }
}

impl PartialEq for Vec3 {
    /// Exact equality of the numbers, component by component: zeros of
    /// either sign are equal, and what is not a number equals nothing.
    fn eq(&self, other: &Vec3) -> (r: bool) {
        same(self.0, other.0) && same(self.1, other.1) && same(self.2, other.2)
    }
}

impl Eq for Vec3 {

}

impl vstd::std_specs::cmp::PartialEqSpecImpl for Vec3 {
    open spec fn obeys_eq_spec() -> bool {
        true
    }

    open spec fn eq_spec(&self, other: &Vec3) -> bool {
        self.matches(*other)
    }
}

impl core::ops::Neg for Vec3 {
    type Output = Vec3;

    /// Flips the sign of every component.
    fn neg(self) -> (r: Vec3) {
        Vec3(negate(self.0), negate(self.1), negate(self.2))
    }
}

impl vstd::std_specs::ops::NegSpecImpl for Vec3 {
    open spec fn obeys_neg_spec() -> bool {
        true
    }

    open spec fn neg_req(self) -> bool {
        true
    }

    open spec fn neg_spec(self) -> Vec3 {
        self.negated()
    }
}

/// Negating a vector twice gives it back, bit for bit.
pub proof fn negated_is_involution(v: Vec3)
    ensures
        v.negated().negated() == v,
{
}

} // verus!
