//! Fixed-point unit quaternions: device orientation in the world frame.

use vstd::prelude::*;

verus! {

use crate::fx::FP;
use crate::fx::FP_SQ;
use crate::fx::d_tz;
use crate::fx::m_fp;
use crate::fx::i_abs;
use crate::fx::sqrt_floor;
use crate::fx::lemma_mul_bounds;
use crate::fx::lemma_square_nonneg;
use crate::fx::lemma_m_fp_bounds;
use crate::fx::abs64;
use crate::fx::div_tz;
use crate::fx::mul_fp;
use crate::fx::isqrt64;
use crate::vec3::Vec3;
use crate::vec3::norm_sq_ok;

/// Bound on quaternion components accepted by products and renormalization.
pub const QLIM: i64 = 2097152;

/// A quaternion w + x*i + y*j + z*k with fixed-point components; kept within
/// a narrow shell around unit norm while the engine runs.
#[derive(Clone, Copy, PartialEq, Eq, Structural, Debug)]
pub struct Quat {
    pub x: i64,
    pub y: i64,
    pub z: i64,
    pub w: i64,
}

/// Sum of the four squared components (no rescaling).
pub open spec fn s_norm_sq(q: Quat) -> int {
    q.x * q.x + q.y * q.y + q.z * q.z + q.w * q.w
}

/// Components of the Hamilton product, each in fixed point.
pub open spec fn s_qmul_x(a: Quat, b: Quat) -> int {
    m_fp(a.w as int, b.x as int) + m_fp(a.x as int, b.w as int) + m_fp(a.y as int, b.z as int)
        - m_fp(a.z as int, b.y as int)
}

pub open spec fn s_qmul_y(a: Quat, b: Quat) -> int {
    m_fp(a.w as int, b.y as int) - m_fp(a.x as int, b.z as int) + m_fp(a.y as int, b.w as int)
        + m_fp(a.z as int, b.x as int)
}

pub open spec fn s_qmul_z(a: Quat, b: Quat) -> int {
    m_fp(a.w as int, b.z as int) + m_fp(a.x as int, b.y as int) - m_fp(a.y as int, b.x as int)
        + m_fp(a.z as int, b.w as int)
}

pub open spec fn s_qmul_w(a: Quat, b: Quat) -> int {
    m_fp(a.w as int, b.w as int) - m_fp(a.x as int, b.x as int) - m_fp(a.y as int, b.y as int)
        - m_fp(a.z as int, b.z as int)
}

/// The whole Hamilton product as a quaternion.
pub open spec fn s_q_times(a: Quat, b: Quat) -> Quat {
    Quat {
        x: s_qmul_x(a, b) as i64,
        y: s_qmul_y(a, b) as i64,
        z: s_qmul_z(a, b) as i64,
        w: s_qmul_w(a, b) as i64,
    }
}

/// The exact vector `rotate_vec` returns: the vector part of q * v * conj(q).
pub open spec fn s_rotate_vec(q: Quat, v: Vec3) -> Vec3 {
    let t = s_q_times(q, Quat { x: v.x, y: v.y, z: v.z, w: 0 });
    let c = Quat { x: (-q.x) as i64, y: (-q.y) as i64, z: (-q.z) as i64, w: q.w };
    Vec3 { x: s_qmul_x(t, c) as i64, y: s_qmul_y(t, c) as i64, z: s_qmul_z(t, c) as i64 }
}

/// The exact value `renorm_or` returns: q rescaled onto the unit shell, or
/// the fallback when q is degenerate or the rescaling lands off the shell.
pub open spec fn s_renorm_or(q: Quat, fallback: Quat) -> Quat {
    let n = sqrt_floor(s_norm_sq(q) as nat) as int;
    if n < FP as int / 2 {
        fallback
    } else {
        let cx = d_tz(q.x * FP, n);
        let cy = d_tz(q.y * FP, n);
        let cz = d_tz(q.z * FP, n);
        let cw = d_tz(q.w * FP, n);
        if i_abs(cx) <= 2 * FP && i_abs(cy) <= 2 * FP && i_abs(cz) <= 2 * FP && i_abs(cw) <= 2 * FP
            && norm_sq_ok(cx * cx + cy * cy + cz * cz + cw * cw) {
            Quat { x: cx as i64, y: cy as i64, z: cz as i64, w: cw as i64 }
        } else {
            fallback
        }
    }
}

impl Quat {
    /// Every component within [-m, m].
    pub open spec fn bounded(self, m: int) -> bool {
        &&& -m <= self.x <= m
        &&& -m <= self.y <= m
        &&& -m <= self.z <= m
        &&& -m <= self.w <= m
    }

    /// Well-formed: the squared norm sits in the unit shell.
    pub open spec fn wf(self) -> bool {
        norm_sq_ok(s_norm_sq(self))
    }

    pub open spec fn is_identity(self) -> bool {
        self.x == 0 && self.y == 0 && self.z == 0 && self.w == FP
    }

    /// The identity rotation.
    pub fn identity() -> (r: Quat)
        ensures
            r.is_identity(),
            r.wf(),
    {
        let r = Quat { x: 0, y: 0, z: 0, w: FP };
        proof {
            assert(s_norm_sq(r) == FP_SQ) by (nonlinear_arith)
                requires
                    r.x == 0,
                    r.y == 0,
                    r.z == 0,
                    r.w == FP,
                    FP == 65536,
                    FP_SQ == FP * FP,
            ;
        }
        r
    }

    /// Hamilton product in fixed point.
    pub fn times(self, o: Quat) -> (r: Quat)
        requires
            self.bounded(QLIM as int),
            o.bounded(QLIM as int),
        ensures
            r.x == s_qmul_x(self, o),
            r.y == s_qmul_y(self, o),
            r.z == s_qmul_z(self, o),
            r.w == s_qmul_w(self, o),
            r == s_q_times(self, o),
    {
        proof {
            lemma_mul_prods_bounded(self, o, QLIM as int, QLIM as int);
        }
        let rx: i64 = mul_fp(self.w, o.x) + mul_fp(self.x, o.w) + mul_fp(self.y, o.z) - mul_fp(
            self.z,
            o.y,
        );
        let ry: i64 = mul_fp(self.w, o.y) - mul_fp(self.x, o.z) + mul_fp(self.y, o.w) + mul_fp(
            self.z,
            o.x,
        );
        let rz: i64 = mul_fp(self.w, o.z) + mul_fp(self.x, o.y) - mul_fp(self.y, o.x) + mul_fp(
            self.z,
            o.w,
        );
        let rw: i64 = mul_fp(self.w, o.w) - mul_fp(self.x, o.x) - mul_fp(self.y, o.y) - mul_fp(
            self.z,
            o.z,
        );
        Quat { x: rx, y: ry, z: rz, w: rw }
    }

    /// The conjugate rotation (inverse on the unit shell).
    pub fn conj(self) -> (r: Quat)
        requires
            self.bounded(QLIM as int),
        ensures
            r.x == -self.x,
            r.y == -self.y,
            r.z == -self.z,
            r.w == self.w,
    {
        Quat { x: -self.x, y: -self.y, z: -self.z, w: self.w }
    }

    /// Rotate a vector by this quaternion: the vector part of q * v * conj(q).
    pub fn rotate_vec(self, v: Vec3) -> (r: Vec3)
        requires
            self.bounded(FP as int + 4),
            v.bounded(4 * FP as int),
        ensures
            r == s_rotate_vec(self, v),
            r.bounded(4194816),
    {
        let vq = Quat { x: v.x, y: v.y, z: v.z, w: 0 };
        proof {
            lemma_mul_prods_bounded(self, vq, 65540, 262144);
        }
        let t = self.times(vq);
        let c = self.conj();
        proof {
            lemma_mul_prods_bounded(t, c, 1048640, 65540);
        }
        let u = t.times(c);
        Vec3 { x: u.x, y: u.y, z: u.z }
    }

    /// Rescale onto the unit shell; fall back when the quaternion is too
    /// short for a meaningful direction or the rescaling lands off the shell.
    pub fn renorm_or(self, fallback: Quat) -> (r: Quat)
        requires
            self.bounded(QLIM as int),
        ensures
            r == s_renorm_or(self, fallback),
    {
        proof {
            lemma_mul_bounds(self.x as int, self.x as int, QLIM as int, QLIM as int);
            lemma_mul_bounds(self.y as int, self.y as int, QLIM as int, QLIM as int);
            lemma_mul_bounds(self.z as int, self.z as int, QLIM as int, QLIM as int);
            lemma_mul_bounds(self.w as int, self.w as int, QLIM as int, QLIM as int);
            lemma_square_nonneg(self.x as int);
            lemma_square_nonneg(self.y as int);
            lemma_square_nonneg(self.z as int);
            lemma_square_nonneg(self.w as int);
        }
        let nsq: i64 = self.x * self.x + self.y * self.y + self.z * self.z + self.w * self.w;
        let n: u64 = isqrt64(nsq as u64);
        proof {
            crate::fx::lemma_sqrt_floor_bounds(nsq as nat);
        }
        if n < 32768 {
            fallback
        } else {
            let ni: i64 = n as i64;
            proof {
                lemma_mul_bounds(self.x as int, FP as int, QLIM as int, FP as int);
                lemma_mul_bounds(self.y as int, FP as int, QLIM as int, FP as int);
                lemma_mul_bounds(self.z as int, FP as int, QLIM as int, FP as int);
                lemma_mul_bounds(self.w as int, FP as int, QLIM as int, FP as int);
            }
            let cx: i64 = div_tz(self.x * FP, ni);
            let cy: i64 = div_tz(self.y * FP, ni);
            let cz: i64 = div_tz(self.z * FP, ni);
            let cw: i64 = div_tz(self.w * FP, ni);
            if abs64(cx) <= 2 * FP && abs64(cy) <= 2 * FP && abs64(cz) <= 2 * FP && abs64(cw) <= 2
                * FP {
                proof {
                    lemma_mul_bounds(cx as int, cx as int, 2 * FP as int, 2 * FP as int);
                    lemma_mul_bounds(cy as int, cy as int, 2 * FP as int, 2 * FP as int);
                    lemma_mul_bounds(cz as int, cz as int, 2 * FP as int, 2 * FP as int);
                    lemma_mul_bounds(cw as int, cw as int, 2 * FP as int, 2 * FP as int);
                }
                let s: i64 = cx * cx + cy * cy + cz * cz + cw * cw;
                if FP_SQ - 8 * FP <= s && s <= FP_SQ + 8 * FP {
                    Quat { x: cx, y: cy, z: cz, w: cw }
                } else {
                    fallback
                }
            } else {
                fallback
            }
        }
    }
}

/// The sixteen fixed-point products of two bounded quaternions are bounded,
/// so the Hamilton product neither overflows nor leaves [-QLIM, QLIM] when
/// the factors are small enough.
pub proof fn lemma_mul_prods_bounded(a: Quat, b: Quat, c: int, d: int)
    requires
        a.bounded(c),
        b.bounded(d),
        0 <= c,
        0 <= d,
    ensures
        -(c * d) <= a.w * b.x <= c * d,
        -((c * d) / FP as int) <= m_fp(a.w as int, b.x as int) <= (c * d) / FP as int,
        -((c * d) / FP as int) <= m_fp(a.w as int, b.y as int) <= (c * d) / FP as int,
        -((c * d) / FP as int) <= m_fp(a.w as int, b.z as int) <= (c * d) / FP as int,
        -((c * d) / FP as int) <= m_fp(a.w as int, b.w as int) <= (c * d) / FP as int,
        -((c * d) / FP as int) <= m_fp(a.x as int, b.x as int) <= (c * d) / FP as int,
        -((c * d) / FP as int) <= m_fp(a.x as int, b.y as int) <= (c * d) / FP as int,
        -((c * d) / FP as int) <= m_fp(a.x as int, b.z as int) <= (c * d) / FP as int,
        -((c * d) / FP as int) <= m_fp(a.x as int, b.w as int) <= (c * d) / FP as int,
        -((c * d) / FP as int) <= m_fp(a.y as int, b.x as int) <= (c * d) / FP as int,
        -((c * d) / FP as int) <= m_fp(a.y as int, b.y as int) <= (c * d) / FP as int,
        -((c * d) / FP as int) <= m_fp(a.y as int, b.z as int) <= (c * d) / FP as int,
        -((c * d) / FP as int) <= m_fp(a.y as int, b.w as int) <= (c * d) / FP as int,
        -((c * d) / FP as int) <= m_fp(a.z as int, b.x as int) <= (c * d) / FP as int,
        -((c * d) / FP as int) <= m_fp(a.z as int, b.y as int) <= (c * d) / FP as int,
        -((c * d) / FP as int) <= m_fp(a.z as int, b.z as int) <= (c * d) / FP as int,
        -((c * d) / FP as int) <= m_fp(a.z as int, b.w as int) <= (c * d) / FP as int,
{
    lemma_m_fp_bounds(a.w as int, b.x as int, c, d);
    lemma_m_fp_bounds(a.w as int, b.y as int, c, d);
    lemma_m_fp_bounds(a.w as int, b.z as int, c, d);
    lemma_m_fp_bounds(a.w as int, b.w as int, c, d);
    lemma_m_fp_bounds(a.x as int, b.x as int, c, d);
    lemma_m_fp_bounds(a.x as int, b.y as int, c, d);
    lemma_m_fp_bounds(a.x as int, b.z as int, c, d);
    lemma_m_fp_bounds(a.x as int, b.w as int, c, d);
    lemma_m_fp_bounds(a.y as int, b.x as int, c, d);
    lemma_m_fp_bounds(a.y as int, b.y as int, c, d);
    lemma_m_fp_bounds(a.y as int, b.z as int, c, d);
    lemma_m_fp_bounds(a.y as int, b.w as int, c, d);
    lemma_m_fp_bounds(a.z as int, b.x as int, c, d);
    lemma_m_fp_bounds(a.z as int, b.y as int, c, d);
    lemma_m_fp_bounds(a.z as int, b.z as int, c, d);
    lemma_m_fp_bounds(a.z as int, b.w as int, c, d);
}

/// What `renorm_or` hands back is the fallback or a well-formed rotation.
pub proof fn lemma_renorm_or_wf(q: Quat, fallback: Quat)
    ensures
        s_renorm_or(q, fallback) == fallback || (s_renorm_or(q, fallback).wf() && s_renorm_or(
            q,
            fallback,
        ).bounded(2 * FP as int)),
{
}

/// A well-formed quaternion has components within FP + 4.
pub proof fn lemma_wf_bounded(q: Quat)
    requires
        q.wf(),
    ensures
        q.bounded(FP as int + 4),
{
    lemma_square_nonneg(q.x as int);
    lemma_square_nonneg(q.y as int);
    lemma_square_nonneg(q.z as int);
    lemma_square_nonneg(q.w as int);
    assert(q.x * q.x <= FP_SQ + 8 * FP);
    assert(-(FP as int + 4) <= q.x <= FP as int + 4) by (nonlinear_arith)
        requires
            q.x * q.x <= FP_SQ + 8 * FP,
            FP == 65536,
            FP_SQ == FP * FP,
    ;
    assert(-(FP as int + 4) <= q.y <= FP as int + 4) by (nonlinear_arith)
        requires
            q.y * q.y <= FP_SQ + 8 * FP,
            FP == 65536,
            FP_SQ == FP * FP,
    ;
    assert(-(FP as int + 4) <= q.z <= FP as int + 4) by (nonlinear_arith)
        requires
            q.z * q.z <= FP_SQ + 8 * FP,
            FP == 65536,
            FP_SQ == FP * FP,
    ;
    assert(-(FP as int + 4) <= q.w <= FP as int + 4) by (nonlinear_arith)
        requires
            q.w * q.w <= FP_SQ + 8 * FP,
            FP == 65536,
            FP_SQ == FP * FP,
    ;
}

} // verus!
