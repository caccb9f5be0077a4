//! The gyroscope bias store: a running weighted mean of at-rest samples.

use vstd::prelude::*;

verus! {

use vstd::arithmetic::div_mod::lemma_div_is_ordered;
use vstd::arithmetic::div_mod::lemma_div_nonincreasing;
use vstd::arithmetic::div_mod::lemma_div_pos_is_pos;
use vstd::arithmetic::div_mod::lemma_div_by_self;
use crate::fx::FP;
use crate::fx::LIM;
use crate::fx::d_tz;
use crate::fx::m_fp;
use crate::fx::i_abs;
use crate::fx::i_min;
use crate::fx::i_max;
use crate::fx::lemma_m_fp_shrink;
use crate::fx::div_tz;
use crate::fx::min64;
use crate::fx::mul_fp;
use crate::vec3::Vec3;

/// Which subsystem may write into the bias store each frame.
#[derive(Clone, Copy, PartialEq, Eq, Structural, Debug)]
pub enum CalibrationMode {
    /// Only explicit calls (and the continuous flag) touch the bias.
    Manual,
    /// Every frame's sample is folded into the bias.
    Continuous,
    /// Samples are folded, scaled by confidence, while the device is steady.
    Automatic,
    /// As Automatic, but also gated on the accelerometer reading close to 1 g.
    SensorFusion,
}

/// Cap on the sample weight: bounds how slowly later updates move the bias.
pub const WEIGHT_CAP: i64 = 256;

/// The running bias estimate with its confidence weight, plus the flag that
/// arms per-frame continuous updates.
#[derive(Clone, Copy, PartialEq, Eq, Structural, Debug)]
pub struct CalibrationOffset {
    pub bias: Vec3,
    pub weight: i64,
    pub calibrating: bool,
}

/// The divisor and the new weight of one fold: weight + 1, capped.
pub open spec fn s_fold_k(w: int) -> int {
    i_min(w + 1, WEIGHT_CAP as int)
}

/// One incremental-average step of a single component.
pub open spec fn s_fold(b: int, s: int, k: int) -> int {
    b + d_tz(s - b, k)
}

/// One incremental-average step scaled by a confidence in [0, FP].
pub open spec fn s_fold_scaled(b: int, s: int, k: int, conf: int) -> int {
    b + m_fp(d_tz(s - b, k), conf)
}

/// The whole store after folding one sample.
pub open spec fn s_folded(c: CalibrationOffset, s: Vec3) -> CalibrationOffset {
    let k = s_fold_k(c.weight as int);
    CalibrationOffset {
        bias: Vec3 {
            x: s_fold(c.bias.x as int, s.x as int, k) as i64,
            y: s_fold(c.bias.y as int, s.y as int, k) as i64,
            z: s_fold(c.bias.z as int, s.z as int, k) as i64,
        },
        weight: k as i64,
        calibrating: c.calibrating,
    }
}

/// The whole store after folding one confidence-scaled sample.
pub open spec fn s_folded_scaled(c: CalibrationOffset, s: Vec3, conf: int) -> CalibrationOffset {
    let k = s_fold_k(c.weight as int);
    CalibrationOffset {
        bias: Vec3 {
            x: s_fold_scaled(c.bias.x as int, s.x as int, k, conf) as i64,
            y: s_fold_scaled(c.bias.y as int, s.y as int, k, conf) as i64,
            z: s_fold_scaled(c.bias.z as int, s.z as int, k, conf) as i64,
        },
        weight: k as i64,
        calibrating: c.calibrating,
    }
}

/// The store after n folds of the same sample.
pub open spec fn s_fold_iter(c: CalibrationOffset, s: Vec3, n: nat) -> CalibrationOffset
    decreases n,
{
    if n == 0 {
        c
    } else {
        s_folded(s_fold_iter(c, s, (n - 1) as nat), s)
    }
}

impl CalibrationOffset {
    /// Bias components within the raw-sample range, weight within its cap.
    pub open spec fn wf(self) -> bool {
        &&& self.bias.bounded(LIM as int)
        &&& 0 <= self.weight <= WEIGHT_CAP
    }

    /// A fresh store: zero bias, zero weight, continuous updates off.
    pub fn new() -> (r: CalibrationOffset)
        ensures
            r.bias.is_zero(),
            r.weight == 0,
            !r.calibrating,
            r.wf(),
    {
        CalibrationOffset { bias: Vec3 { x: 0, y: 0, z: 0 }, weight: 0, calibrating: false }
    }

    /// Overwrite bias and weight, as when restoring a saved calibration.
    pub fn set(&mut self, bias: Vec3, weight: i64)
        requires
            bias.bounded(LIM as int),
            0 <= weight <= WEIGHT_CAP,
        ensures
            final(self).bias == bias,
            final(self).weight == weight,
            final(self).calibrating == old(self).calibrating,
            final(self).wf(),
    {
        self.bias = bias;
        self.weight = weight;
    }

    /// Fold one sample into the running weighted mean:
    /// bias += (sample - bias) / min(weight + 1, cap), weight capped.
    pub fn fold_sample(&mut self, s: Vec3)
        requires
            old(self).wf(),
            s.bounded(LIM as int),
        ensures
            *final(self) == s_folded(*old(self), s),
            final(self).wf(),
    {
        let k: i64 = min64(self.weight + 1, WEIGHT_CAP);
        proof {
            lemma_fold_between(self.bias.x as int, s.x as int, k as int);
            lemma_fold_between(self.bias.y as int, s.y as int, k as int);
            lemma_fold_between(self.bias.z as int, s.z as int, k as int);
        }
        let bx: i64 = self.bias.x + div_tz(s.x - self.bias.x, k);
        let by: i64 = self.bias.y + div_tz(s.y - self.bias.y, k);
        let bz: i64 = self.bias.z + div_tz(s.z - self.bias.z, k);
        self.bias = Vec3 { x: bx, y: by, z: bz };
        self.weight = k;
    }

    /// Fold one sample, its pull scaled down by a confidence in [0, FP].
    pub fn fold_sample_scaled(&mut self, s: Vec3, conf: i64)
        requires
            old(self).wf(),
            s.bounded(LIM as int),
            0 <= conf <= FP,
        ensures
            *final(self) == s_folded_scaled(*old(self), s, conf as int),
            final(self).wf(),
    {
        let k: i64 = min64(self.weight + 1, WEIGHT_CAP);
        proof {
            lemma_fold_between(self.bias.x as int, s.x as int, k as int);
            lemma_fold_between(self.bias.y as int, s.y as int, k as int);
            lemma_fold_between(self.bias.z as int, s.z as int, k as int);
            lemma_m_fp_shrink(d_tz(s.x - self.bias.x, k as int), conf as int);
            lemma_m_fp_shrink(d_tz(s.y - self.bias.y, k as int), conf as int);
            lemma_m_fp_shrink(d_tz(s.z - self.bias.z, k as int), conf as int);
        }
        let bx: i64 = self.bias.x + mul_fp(div_tz(s.x - self.bias.x, k), conf);
        let by: i64 = self.bias.y + mul_fp(div_tz(s.y - self.bias.y, k), conf);
        let bz: i64 = self.bias.z + mul_fp(div_tz(s.z - self.bias.z, k), conf);
        self.bias = Vec3 { x: bx, y: by, z: bz };
        self.weight = k;
    }
}

/// One fold lands between the old bias and the sample, moves the bias no
/// further from the sample, and strictly closer while the gap is at least
/// the divisor.
pub proof fn lemma_fold_between(b: int, s: int, k: int)
    requires
        1 <= k,
    ensures
        i_min(b, s) <= s_fold(b, s, k) <= i_max(b, s),
        i_abs(s_fold(b, s, k) - s) <= i_abs(b - s),
        k <= i_abs(b - s) ==> i_abs(s_fold(b, s, k) - s) <= i_abs(b - s) - 1,
        b == s ==> s_fold(b, s, k) == b,
{
    let d = s - b;
    if d >= 0 {
        lemma_div_pos_is_pos(d, k);
        lemma_div_nonincreasing(d, k);
        if d >= k {
            lemma_div_by_self(k);
            lemma_div_is_ordered(k, d, k);
        }
    } else {
        lemma_div_pos_is_pos(-d, k);
        lemma_div_nonincreasing(-d, k);
        if -d >= k {
            lemma_div_by_self(k);
            lemma_div_is_ordered(k, -d, k);
        }
    }
}

/// Feeding the same sample over and over: the weight climbs to its cap and
/// never past it, and the bias lands within the cap's distance of the sample
/// once enough samples have gone in, never drifting away in between.
pub proof fn lemma_constant_sample_converges(c: CalibrationOffset, s: Vec3, n: nat)
    requires
        c.wf(),
        s.bounded(LIM as int),
    ensures
        s_fold_iter(c, s, n).wf(),
        s_fold_iter(c, s, n).weight == i_min(c.weight + n, WEIGHT_CAP as int),
        i_abs(s_fold_iter(c, s, n).bias.x - s.x) <= i_abs(c.bias.x - s.x),
        i_abs(s_fold_iter(c, s, n).bias.y - s.y) <= i_abs(c.bias.y - s.y),
        i_abs(s_fold_iter(c, s, n).bias.z - s.z) <= i_abs(c.bias.z - s.z),
        n >= 2 * LIM ==> i_abs(s_fold_iter(c, s, n).bias.x - s.x) < WEIGHT_CAP,
        n >= 2 * LIM ==> i_abs(s_fold_iter(c, s, n).bias.y - s.y) < WEIGHT_CAP,
        n >= 2 * LIM ==> i_abs(s_fold_iter(c, s, n).bias.z - s.z) < WEIGHT_CAP,
        i_abs(s_fold_iter(c, s, n).bias.x - s.x) < WEIGHT_CAP || i_abs(
            s_fold_iter(c, s, n).bias.x - s.x,
        ) <= i_abs(c.bias.x - s.x) - n,
        i_abs(s_fold_iter(c, s, n).bias.y - s.y) < WEIGHT_CAP || i_abs(
            s_fold_iter(c, s, n).bias.y - s.y,
        ) <= i_abs(c.bias.y - s.y) - n,
        i_abs(s_fold_iter(c, s, n).bias.z - s.z) < WEIGHT_CAP || i_abs(
            s_fold_iter(c, s, n).bias.z - s.z,
        ) <= i_abs(c.bias.z - s.z) - n,
    decreases n,
{
    if n == 0 {
    } else {
        lemma_constant_sample_converges(c, s, (n - 1) as nat);
        let p = s_fold_iter(c, s, (n - 1) as nat);
        let k = s_fold_k(p.weight as int);
        lemma_fold_between(p.bias.x as int, s.x as int, k);
        lemma_fold_between(p.bias.y as int, s.y as int, k);
        lemma_fold_between(p.bias.z as int, s.z as int, k);
    }
}

} // verus!
