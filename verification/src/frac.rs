//! Exact fractions and the world-space vector/transform types built on
//! them.
//!
//! World translations and scales are ratios of the integer quantities in
//! the manifest (pixel positions, sizes, pivots), so the library keeps
//! them as exact numerator/denominator pairs. Two fractions are equal
//! when they denote the same rational number, regardless of
//! representation.

use vstd::prelude::*;

verus! {

/// An exact rational number `num / den` with a positive denominator.
#[derive(Clone, Copy, Debug)]
pub struct Frac {
    pub num: i64,
    pub den: i64,
}

impl Frac {
    /// Well-formedness: the denominator is positive, so every value
    /// denotes a rational number and its sign lives in the numerator.
    pub open spec fn wf(self) -> bool {
        self.den >= 1
    }

    /// The rational `num / den` equals the rational `n / d`.
    pub open spec fn is_rat(self, n: int, d: int) -> bool {
        &&& self.wf()
        &&& d >= 1
        &&& self.num * d == n * self.den
    }

    pub fn new(num: i64, den: i64) -> (r: Frac)
        requires
            den >= 1,
        ensures
            r.num == num,
            r.den == den,
            r.wf(),
    {
        Frac { num, den }
    }

    pub fn from_int(n: i64) -> (r: Frac)
        ensures
            r.num == n,
            r.den == 1,
            r.is_rat(n as int, 1),
    {
        Frac { num: n, den: 1 }
    }

    /// Truncates toward zero, as a cast from a float to an integer would.
    pub fn trunc(&self) -> (r: i64)
        requires
            self.wf(),
        ensures
            r == spec_trunc(self.num as int, self.den as int),
    {
        if self.num >= 0 {
            let q: u64 = self.num as u64 / self.den as u64;
            proof {
                assert(q <= self.num) by (nonlinear_arith)
                    requires q == self.num as u64 / (self.den as u64) && self.den >= 1 && self.num >= 0,
                ;
            }
            q as i64
        } else {
            let mag: u64 = if self.num == i64::MIN {
                9223372036854775808u64
            } else {
                (-self.num) as u64
            };
            let q: u64 = mag / self.den as u64;
            proof {
                assert(q <= mag) by (nonlinear_arith)
                    requires q == mag / (self.den as u64) && self.den >= 1,
                ;
            }
            if q == 9223372036854775808u64 {
                i64::MIN
            } else {
                -(q as i64)
            }
        }
    }
}

/// Division of `n` by `d`, rounded toward zero.
pub open spec fn spec_trunc(n: int, d: int) -> int {
    if n >= 0 {
        n / d
    } else {
        -((-n) / d)
    }
}

impl PartialEq for Frac {
    fn eq(&self, other: &Frac) -> (r: bool) {
        proof {
            let big: int = 0x80000000000000000000000000000000;
            assert((self.num as int) * (other.den as int) < big && -big < (self.num as int) * (
            other.den as int)) by (nonlinear_arith)
                requires
                    -0x8000000000000000 <= self.num <= 0x7fffffffffffffff,
                    -0x8000000000000000 <= other.den <= 0x7fffffffffffffff,
                    big == 0x80000000000000000000000000000000,
            ;
            assert((other.num as int) * (self.den as int) < big && -big < (other.num as int) * (
            self.den as int)) by (nonlinear_arith)
                requires
                    -0x8000000000000000 <= other.num <= 0x7fffffffffffffff,
                    -0x8000000000000000 <= self.den <= 0x7fffffffffffffff,
                    big == 0x80000000000000000000000000000000,
            ;
        }
        (self.num as i128) * (other.den as i128) == (other.num as i128) * (self.den as i128)
    }
}

impl vstd::std_specs::cmp::PartialEqSpecImpl for Frac {
    open spec fn obeys_eq_spec() -> bool {
        true
    }

    open spec fn eq_spec(&self, other: &Frac) -> bool {
        self.num * other.den == other.num * self.den
    }
}

/// A 2D world-space vector with exact rational components.
#[derive(Clone, Copy, Debug)]
pub struct Vec2F {
    pub x: Frac,
    pub y: Frac,
}

impl Vec2F {
    pub open spec fn wf(self) -> bool {
        self.x.wf() && self.y.wf()
    }

    pub fn new(x: Frac, y: Frac) -> (r: Vec2F)
        ensures
            r.x == x,
            r.y == y,
    {
        Vec2F { x, y }
    }
}

impl PartialEq for Vec2F {
    fn eq(&self, other: &Vec2F) -> (r: bool) {
        self.x == other.x && self.y == other.y
    }
}

impl vstd::std_specs::cmp::PartialEqSpecImpl for Vec2F {
    open spec fn obeys_eq_spec() -> bool {
        true
    }

    open spec fn eq_spec(&self, other: &Vec2F) -> bool {
        vstd::std_specs::cmp::PartialEqSpec::eq_spec(&self.x, &other.x)
            && vstd::std_specs::cmp::PartialEqSpec::eq_spec(&self.y, &other.y)
    }
}

/// A world-space placement: a translation at a caller-supplied layer
/// depth `z`, plus a 2D scale. No rotation is modeled.
#[derive(Clone, Copy, Debug)]
pub struct Transform {
    pub translation: Vec2F,
    pub z: i64,
    pub scale: Vec2F,
}

impl Transform {
    /// A transform at the given translation with unit scale.
    pub fn from_xyz(x: Frac, y: Frac, z: i64) -> (r: Transform)
        ensures
            r.translation.x == x,
            r.translation.y == y,
            r.z == z,
            r.scale.x.is_rat(1, 1),
            r.scale.y.is_rat(1, 1),
    {
        Transform {
            translation: Vec2F { x, y },
            z,
            scale: Vec2F { x: Frac { num: 1, den: 1 }, y: Frac { num: 1, den: 1 } },
        }
    }

    /// The same transform with its scale replaced.
    pub fn with_scale(self, scale_x: Frac, scale_y: Frac) -> (r: Transform)
        ensures
            r.translation == self.translation,
            r.z == self.z,
            r.scale.x == scale_x,
            r.scale.y == scale_y,
    {
        Transform { translation: self.translation, z: self.z, scale: Vec2F { x: scale_x, y: scale_y } }
    }
}

impl PartialEq for Transform {
    fn eq(&self, other: &Transform) -> (r: bool) {
        self.translation == other.translation && self.z == other.z && self.scale == other.scale
    }
}

impl vstd::std_specs::cmp::PartialEqSpecImpl for Transform {
    open spec fn obeys_eq_spec() -> bool {
        true
    }

    open spec fn eq_spec(&self, other: &Transform) -> bool {
        &&& vstd::std_specs::cmp::PartialEqSpec::eq_spec(&self.translation, &other.translation)
        &&& self.z == other.z
        &&& vstd::std_specs::cmp::PartialEqSpec::eq_spec(&self.scale, &other.scale)
    }
}

} // verus!
