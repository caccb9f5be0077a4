//! Fixed-point 3-component vectors: measurements and directions.

use vstd::prelude::*;

verus! {

use crate::fx::FP;
use crate::fx::FP_SQ;
use crate::fx::MUL_LIM;
use crate::fx::d_tz;
use crate::fx::m_fp;
use crate::fx::i_abs;
use crate::fx::sqrt_floor;
use crate::fx::lemma_mul_bounds;
use crate::fx::lemma_square_nonneg;
use crate::fx::lemma_sqrt_floor_bounds;
use crate::fx::abs64;
use crate::fx::div_tz;
use crate::fx::mul_fp;
use crate::fx::isqrt64;

/// Bound under which three squared components sum within an i64.
pub const DOT_LIM: i64 = 1073741824;

/// A 3-component fixed-point vector; FP in a component stands for 1.0.
#[derive(Clone, Copy, PartialEq, Eq, Structural, Debug)]
pub struct Vec3 {
    pub x: i64,
    pub y: i64,
    pub z: i64,
}

/// Sum of squared components (no rescaling).
pub open spec fn s_mag_sq(v: Vec3) -> int {
    v.x * v.x + v.y * v.y + v.z * v.z
}

/// Fixed-point dot product: rescaled by FP, rounded toward zero.
pub open spec fn s_dot_fp(a: Vec3, b: Vec3) -> int {
    d_tz(a.x * b.x + a.y * b.y + a.z * b.z, FP as int)
}

/// A squared norm close enough to FP^2 to count as unit length.
pub open spec fn norm_sq_ok(nsq: int) -> bool {
    FP_SQ - 8 * FP <= nsq <= FP_SQ + 8 * FP
}

/// The exact value `unit_or` returns: v rescaled to unit length by integer
/// division, or the fallback when v is too short or the rescaling is off.
pub open spec fn s_unit_or(v: Vec3, fallback: Vec3) -> Vec3 {
    let n = sqrt_floor(s_mag_sq(v) as nat) as int;
    if n < FP as int / 2 {
        fallback
    } else {
        let cx = d_tz(v.x * FP, n);
        let cy = d_tz(v.y * FP, n);
        let cz = d_tz(v.z * FP, n);
        if i_abs(cx) <= 2 * FP && i_abs(cy) <= 2 * FP && i_abs(cz) <= 2 * FP && norm_sq_ok(
            cx * cx + cy * cy + cz * cz,
        ) {
            Vec3 { x: cx as i64, y: cy as i64, z: cz as i64 }
        } else {
            fallback
        }
    }
}

impl Vec3 {
    /// Every component within [-m, m].
    pub open spec fn bounded(self, m: int) -> bool {
        &&& -m <= self.x <= m
        &&& -m <= self.y <= m
        &&& -m <= self.z <= m
    }

    pub open spec fn is_zero(self) -> bool {
        self.x == 0 && self.y == 0 && self.z == 0
    }

    pub fn zero() -> (r: Vec3)
        ensures
            r.is_zero(),
    {
        Vec3 { x: 0, y: 0, z: 0 }
    }

    pub fn plus(self, o: Vec3) -> (r: Vec3)
        requires
            self.bounded(2 * MUL_LIM),
            o.bounded(2 * MUL_LIM),
        ensures
            r.x == self.x + o.x,
            r.y == self.y + o.y,
            r.z == self.z + o.z,
    {
        Vec3 { x: self.x + o.x, y: self.y + o.y, z: self.z + o.z }
    }

    pub fn minus(self, o: Vec3) -> (r: Vec3)
        requires
            self.bounded(2 * MUL_LIM),
            o.bounded(2 * MUL_LIM),
        ensures
            r.x == self.x - o.x,
            r.y == self.y - o.y,
            r.z == self.z - o.z,
    {
        Vec3 { x: self.x - o.x, y: self.y - o.y, z: self.z - o.z }
    }

    /// Component-wise fixed-point scaling.
    pub fn scaled(self, k: i64) -> (r: Vec3)
        requires
            self.bounded(MUL_LIM as int),
            -MUL_LIM <= k <= MUL_LIM,
        ensures
            r.x == m_fp(self.x as int, k as int),
            r.y == m_fp(self.y as int, k as int),
            r.z == m_fp(self.z as int, k as int),
    {
        Vec3 { x: mul_fp(self.x, k), y: mul_fp(self.y, k), z: mul_fp(self.z, k) }
    }

    /// Sum of squared components.
    pub fn mag_sq(self) -> (r: i64)
        requires
            self.bounded(DOT_LIM as int),
        ensures
            r == s_mag_sq(self),
            0 <= r,
    {
        proof {
            lemma_mul_bounds(self.x as int, self.x as int, DOT_LIM as int, DOT_LIM as int);
            lemma_mul_bounds(self.y as int, self.y as int, DOT_LIM as int, DOT_LIM as int);
            lemma_mul_bounds(self.z as int, self.z as int, DOT_LIM as int, DOT_LIM as int);
            lemma_square_nonneg(self.x as int);
            lemma_square_nonneg(self.y as int);
            lemma_square_nonneg(self.z as int);
        }
        self.x * self.x + self.y * self.y + self.z * self.z
    }

    /// Fixed-point dot product.
    pub fn dot_fp(self, o: Vec3) -> (r: i64)
        requires
            self.bounded(DOT_LIM as int),
            o.bounded(DOT_LIM as int),
        ensures
            r == s_dot_fp(self, o),
    {
        proof {
            lemma_mul_bounds(self.x as int, o.x as int, DOT_LIM as int, DOT_LIM as int);
            lemma_mul_bounds(self.y as int, o.y as int, DOT_LIM as int, DOT_LIM as int);
            lemma_mul_bounds(self.z as int, o.z as int, DOT_LIM as int, DOT_LIM as int);
        }
        let s: i64 = self.x * o.x + self.y * o.y + self.z * o.z;
        div_tz(s, FP)
    }

    /// Rescale to unit length; fall back when the vector is too short for a
    /// meaningful direction or the integer rescaling lands off the unit shell.
    pub fn unit_or(self, fallback: Vec3) -> (r: Vec3)
        requires
            self.bounded(DOT_LIM as int),
        ensures
            r == s_unit_or(self, fallback),
    {
        let nsq: i64 = self.mag_sq();
        let n: u64 = isqrt64(nsq as u64);
        proof {
            lemma_sqrt_floor_bounds(nsq as nat);
        }
        if n < 32768 {
            fallback
        } else {
            let ni: i64 = n as i64;
            proof {
                lemma_mul_bounds(self.x as int, FP as int, DOT_LIM as int, FP as int);
                lemma_mul_bounds(self.y as int, FP as int, DOT_LIM as int, FP as int);
                lemma_mul_bounds(self.z as int, FP as int, DOT_LIM as int, FP as int);
            }
            let cx: i64 = div_tz(self.x * FP, ni);
            let cy: i64 = div_tz(self.y * FP, ni);
            let cz: i64 = div_tz(self.z * FP, ni);
            if abs64(cx) <= 2 * FP && abs64(cy) <= 2 * FP && abs64(cz) <= 2 * FP {
                proof {
                    lemma_mul_bounds(cx as int, cx as int, 2 * FP as int, 2 * FP as int);
                    lemma_mul_bounds(cy as int, cy as int, 2 * FP as int, 2 * FP as int);
                    lemma_mul_bounds(cz as int, cz as int, 2 * FP as int, 2 * FP as int);
                }
                let s: i64 = cx * cx + cy * cy + cz * cz;
                if FP_SQ - 8 * FP <= s && s <= FP_SQ + 8 * FP {
                    Vec3 { x: cx, y: cy, z: cz }
                } else {
                    fallback
                }
            } else {
                fallback
            }
        }
    }
}

/// What `unit_or` hands back is the fallback or a unit-length direction.
pub proof fn lemma_unit_or_wf(v: Vec3, fallback: Vec3)
    ensures
        s_unit_or(v, fallback) == fallback || (norm_sq_ok(s_mag_sq(s_unit_or(v, fallback)))
            && s_unit_or(v, fallback).bounded(2 * FP)),
{
}

} // verus!
