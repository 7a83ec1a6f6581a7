//! The vector type and the decisions of its geometric helpers.

use vstd::prelude::*;
use vstd::arithmetic::power2::{lemma2_to64, lemma2_to64_rest, pow2};
use vstd::string::StringExecFns;
use crate::binary32::{
    clamp, clamped, eq, equal, exponent, fraction, le, lemma_units_of_constants, less, less_eq, lt,
    nan, units, INFINITY, NEG_INFINITY, NEG_ONE, ONE, ZERO,
};

verus! {

/// The pattern of the length that a vector must exceed to be normalised: the
/// single-precision number nearest to one hundred-thousandth.
pub const NORMALIZE_THRESHOLD: u32 = 0x3727_c5ac;

/// A pair of single-precision coordinates, each held as its bit pattern.
/// Every pair of patterns is a valid vector.
#[derive(Clone, Copy, Debug)]
pub struct Vector2 {
    pub x: u32,
    pub y: u32,
}

impl Vector2 {
    /// The vector with the given coordinates.
    pub open spec fn spec_new(x: u32, y: u32) -> Vector2 {
        Vector2 { x, y }
    }

    /// The coordinate that `index` names: `x` for 0, `y` for 1.
    pub open spec fn component(self, index: int) -> u32
        recommends
            0 <= index < 2,
    {
        if index == 0 {
            self.x
        } else {
            self.y
        }
    }

    /// The vector with the coordinate that `index` names replaced by `value`.
    pub open spec fn with_component(self, index: int, value: u32) -> Vector2
        recommends
            0 <= index < 2,
    {
        if index == 0 {
            Vector2 { x: value, y: self.y }
        } else {
            Vector2 { x: self.x, y: value }
        }
    }

    /// Whether a bounded move reaches its target: the distance to it is within
    /// the bound, or is zero.
    pub open spec fn reaches(distance: u32, max_distance_delta: u32) -> bool {
        less_eq(distance, max_distance_delta) || equal(distance, ZERO)
    }

    /// Whether a vector of the given length has a direction to keep: the length
    /// exceeds the threshold. A NaN does not.
    pub open spec fn normalizable(magnitude: u32) -> bool {
        less(NORMALIZE_THRESHOLD, magnitude)
    }

    /// Stores the two coordinates as they are given.
    #[verifier::when_used_as_spec(spec_new)]
    pub fn new(x: u32, y: u32) -> (r: Self)
        ensures
            r == Self::spec_new(x, y),
    {
        Vector2 { x, y }
    }

    /// The vector of two positive zeros.
    pub fn zero() -> (r: Self)
        ensures
            r == Self::spec_new(ZERO, ZERO),
    {
        Vector2 { x: ZERO, y: ZERO }
    }

    /// The vector of two ones.
    pub fn one() -> (r: Self)
        ensures
            r == Self::spec_new(ONE, ONE),
    {
        Vector2 { x: ONE, y: ONE }
    }

    /// The unit vector along the y axis, which points up.
    pub fn up() -> (r: Self)
        ensures
            r == Self::spec_new(ZERO, ONE),
    {
        Vector2 { x: ZERO, y: ONE }
    }

    /// The unit vector against the y axis.
    pub fn down() -> (r: Self)
        ensures
            r == Self::spec_new(ZERO, NEG_ONE),
    {
        Vector2 { x: ZERO, y: NEG_ONE }
    }

    /// The unit vector against the x axis.
    pub fn left() -> (r: Self)
        ensures
            r == Self::spec_new(NEG_ONE, ZERO),
    {
        Vector2 { x: NEG_ONE, y: ZERO }
    }

    /// The unit vector along the x axis.
    pub fn right() -> (r: Self)
        ensures
            r == Self::spec_new(ONE, ZERO),
    {
        Vector2 { x: ONE, y: ZERO }
    }

    /// The vector with both coordinates at positive infinity.
    pub fn positive_infinity() -> (r: Self)
        ensures
            r == Self::spec_new(INFINITY, INFINITY),
    {
        Vector2 { x: INFINITY, y: INFINITY }
    }

    /// The vector with both coordinates at negative infinity.
    pub fn negative_infinity() -> (r: Self)
        ensures
            r == Self::spec_new(NEG_INFINITY, NEG_INFINITY),
    {
        Vector2 { x: NEG_INFINITY, y: NEG_INFINITY }
    }

    /// Overwrites both coordinates.
    pub fn set(&mut self, x: u32, y: u32)
        ensures
            *final(self) == Self::spec_new(x, y),
    {
        self.x = x;
        self.y = y;
    }

    /// Reads the coordinate that `index` names.
    pub fn get_component(&self, index: usize) -> (r: u32)
        requires
            index < 2,
        ensures
            r == self.component(index as int),
    {
        if index == 0 {
            self.x
        } else {
            self.y
        }
    }

    /// Overwrites the coordinate that `index` names and leaves the other one.
    pub fn set_component(&mut self, index: usize, value: u32)
        requires
            index < 2,
        ensures
            *final(self) == old(self).with_component(index as int, value),
    {
        if index == 0 {
            self.x = value;
        } else {
            self.y = value;
        }
    }

    /// The result of moving towards `target` by at most `max_distance_delta`.
    ///
    /// `distance` is the length of the way to `target`, and `stepped` the point
    /// that lies `max_distance_delta` along that way, both as the caller
    /// rounded them. The target is handed back bit for bit when the distance is
    /// within the bound or is zero, and `stepped` in every other case: with a
    /// negative bound, which leads away from the target, and with a NaN on
    /// either side, unless the distance is zero.
    pub fn move_towards(
        target: Vector2,
        stepped: Vector2,
        distance: u32,
        max_distance_delta: u32,
    ) -> (r: Vector2)
        ensures
            Self::reaches(distance, max_distance_delta) ==> r == target,
            !Self::reaches(distance, max_distance_delta) ==> r == stepped,
    {
        if le(distance, max_distance_delta) || eq(distance, ZERO) {
            target
        } else {
            stepped
        }
    }

    /// Brings the vector to unit length, or to zero where it is too short.
    ///
    /// `magnitude` is the length of the vector and `scaled` the vector divided
    /// by that length, both as the caller rounded them. The vector becomes
    /// `scaled` when the length exceeds the threshold, and the zero vector
    /// otherwise: at the threshold, below it, and for a NaN.
    pub fn normalize(&mut self, magnitude: u32, scaled: Vector2)
        ensures
            Self::normalizable(magnitude) ==> *final(self) == scaled,
            !Self::normalizable(magnitude) ==> *final(self) == Self::spec_new(ZERO, ZERO),
    {
        if lt(NORMALIZE_THRESHOLD, magnitude) {
            *self = scaled;
        } else {
            *self = Self::zero();
        }
    }

    /// The weight that a clamped interpolation uses for `t`: zero for a `t`
    /// below zero, one for a `t` above one, and `t` itself otherwise, which
    /// includes a NaN and the negative zero.
    pub fn lerp_parameter(t: u32) -> (r: u32)
        ensures
            r == clamped(t, ZERO, ONE),
            less(t, ZERO) ==> r == ZERO,
            less(ONE, t) ==> r == ONE,
            less_eq(ZERO, t) && less_eq(t, ONE) ==> r == t,
            nan(t) ==> r == t,
            !nan(t) ==> less_eq(ZERO, r) && less_eq(r, ONE),
    {
        proof {
            lemma_units_of_constants();
        }
        clamp(t, ZERO, ONE)
    }

    /// The text of a vector whose coordinates read `x` and `y`: the two texts
    /// in round brackets, separated by a comma and a space.
    pub fn display(x: &str, y: &str) -> (text: String)
        ensures
            text@ == "("@ + x@ + ", "@ + y@ + ")"@,
    {
        let mut text = String::from_str("(");
        text.append(x);
        text.append(", ");
        text.append(y);
        text.append(")");
        text
    }
}

impl PartialEq for Vector2 {
    /// Two vectors are equal when their coordinates are equal as numbers.
    fn eq(&self, other: &Self) -> (r: bool) {
        eq(self.x, other.x) && eq(self.y, other.y)
    }
}

impl vstd::std_specs::cmp::PartialEqSpecImpl for Vector2 {
    open spec fn obeys_eq_spec() -> bool {
        true
    }

    open spec fn eq_spec(&self, other: &Self) -> bool {
        equal(self.x, other.x) && equal(self.y, other.y)
    }
}

/// The weight of a clamped interpolation is zero at and below zero, one at and
/// above one, and is not changed by clamping it again.
pub proof fn lemma_lerp_parameter_clamps(t: u32)
    ensures
        clamped(ZERO, ZERO, ONE) == ZERO,
        clamped(ONE, ZERO, ONE) == ONE,
        less(t, ZERO) ==> clamped(t, ZERO, ONE) == ZERO,
        less(ONE, t) ==> clamped(t, ZERO, ONE) == ONE,
        clamped(clamped(t, ZERO, ONE), ZERO, ONE) == clamped(t, ZERO, ONE),
{
    lemma_units_of_constants();
}

/// The threshold of normalisation is `10995116 * 2^-40`, and no
/// single-precision number is nearer to one hundred-thousandth: it differs
/// from it by less than half the step `2^-40` between neighbouring numbers
/// of its size.
pub proof fn lemma_threshold_is_nearest()
    ensures
        !nan(NORMALIZE_THRESHOLD),
        units(NORMALIZE_THRESHOLD) == 10995116 * pow2(109),
        pow2(40) - 50000 < 10995116 * 100000 < pow2(40) + 50000,
{
    lemma2_to64();
    lemma2_to64_rest();
    assert(exponent(NORMALIZE_THRESHOLD) == 110 && fraction(NORMALIZE_THRESHOLD) == 0x27_c5ac);
}

/// A vector built from two coordinates gives both back unchanged, read by
/// field or by index.
pub proof fn lemma_new_round_trip(x: u32, y: u32)
    ensures
        Vector2::new(x, y).x == x,
        Vector2::new(x, y).y == y,
        Vector2::new(x, y).component(0) == x,
        Vector2::new(x, y).component(1) == y,
{
}

/// Index 0 names `x` and index 1 names `y`. A coordinate written through an
/// index is read back through it, and the other coordinate stays as it was.
pub proof fn lemma_component_access(v: Vector2, index: int, value: u32)
    requires
        0 <= index < 2,
    ensures
        v.component(0) == v.x,
        v.component(1) == v.y,
        v.with_component(index, value).component(index) == value,
        v.with_component(index, value).component(1 - index) == v.component(1 - index),
{
}

} // verus!
