//! The per-controller engine: one instance fuses one controller's frames.
//!
//! Each call to `process` takes one raw gyro sample (deg/s), one raw
//! accelerometer sample (g units) and the elapsed seconds, all fixed-point,
//! and advances bias learning, steadiness detection, orientation and the
//! gravity estimate. The whole frame step is mirrored by the spec function
//! [`s_process`], so the contract pins every field of the new state.

use vstd::prelude::*;

verus! {

use vstd::arithmetic::mul::lemma_mul_basics;
use vstd::arithmetic::div_mod::lemma_div_of0;
use crate::fx::FP;
use crate::fx::FP_SQ;
use crate::fx::LIM;
use crate::fx::m_fp;
use crate::fx::i_abs;
use crate::fx::i_clamp;
use crate::fx::i_min;
use crate::fx::lemma_m_fp_bounds;
use crate::fx::lemma_m_fp_shrink;
use crate::fx::abs64;
use crate::fx::clamp64;
use crate::fx::mul_fp;
use crate::vec3::Vec3;
use crate::vec3::s_mag_sq;
use crate::vec3::s_unit_or;
use crate::vec3::norm_sq_ok;
use crate::vec3::lemma_unit_or_wf;
use crate::quat::Quat;
use crate::quat::s_q_times;
use crate::quat::s_rotate_vec;
use crate::quat::s_renorm_or;
use crate::quat::lemma_renorm_or_wf;
use crate::quat::lemma_wf_bounded;
use crate::quat::lemma_mul_prods_bounded;
use crate::calib::CalibrationMode;
use crate::calib::CalibrationOffset;
use crate::calib::WEIGHT_CAP;
use crate::calib::s_folded;
use crate::calib::s_folded_scaled;
use crate::calib::lemma_fold_between;
use crate::autocal::AutoCalibration;
use crate::autocal::ACCEL_ENTER_MIN_SQ;
use crate::autocal::ACCEL_ENTER_MAX_SQ;
use crate::autocal::s_autocal_step;
use crate::aim::DEFAULT_YAW_RELAX;
use crate::aim::s_default_up;
use crate::aim::DEFAULT_SIDE_THRESH;
use crate::aim::s_player_space;
use crate::aim::s_world_space;
use crate::aim::player_space;
use crate::aim::world_space;

/// Longest accepted frame duration (4 seconds).
pub const DT_MAX: i64 = 262144;

/// Half of pi/180 in fixed point: degrees to radians, halved for the
/// quaternion exponent.
pub const HALF_RAD: i64 = 572;

/// Clamp on each half-angle component per frame (0.5 rad).
pub const TH_CLAMP: i64 = 32768;

/// Complementary-filter gain while the accelerometer reads close to 1 g.
pub const GAIN_HI: i64 = 1311;

/// Reduced gain while the reading deviates moderately from 1 g.
pub const GAIN_LO: i64 = 328;

/// Squared-magnitude deviation from 1 g below which the full gain applies.
pub const ADEV_SMALL: i64 = 429496730;

/// Deviation below which the reduced gain applies; beyond it the filter
/// trusts the kinematic carry-forward alone.
pub const ADEV_BIG: i64 = 2147483648;

/// Bound on the gravity estimate's components (2.0 in fixed point).
pub const GRAV_LIM: i64 = 131072;

/// Tuning knobs a host may pick when it builds an engine.
#[derive(Clone, Copy, PartialEq, Eq, Structural, Debug)]
pub struct Settings {
    /// Player-space blend factor used when a call passes none.
    pub yaw_relax_default: i64,
    /// World-space attenuation threshold used when a call passes none.
    pub side_thresh_default: i64,
}

impl Settings {
    pub open spec fn wf(self) -> bool {
        &&& 0 <= self.yaw_relax_default <= 2 * FP
        &&& 1 <= self.side_thresh_default <= FP
    }

    /// The defaults: 1.41 for the blend factor, 0.125 for the threshold.
    pub fn new() -> (r: Settings)
        ensures
            r.yaw_relax_default == DEFAULT_YAW_RELAX,
            r.side_thresh_default == DEFAULT_SIDE_THRESH,
            r.wf(),
    {
        Settings {
            yaw_relax_default: DEFAULT_YAW_RELAX,
            side_thresh_default: DEFAULT_SIDE_THRESH,
        }
    }
}

/// The full per-controller state.
#[derive(Clone, Copy, PartialEq, Eq, Structural, Debug)]
pub struct GamepadMotion {
    /// Device orientation relative to the gravity-aligned world frame.
    pub orientation: Quat,
    /// Gravity direction estimate in the device frame, near unit length.
    pub gravity: Vec3,
    /// Measured acceleration minus the gravity estimate (device frame).
    pub accel_processed: Vec3,
    /// The last frame's bias-corrected gyro sample.
    pub gyro_cal: Vec3,
    /// The running bias estimate.
    pub calib: CalibrationOffset,
    /// The steadiness detector.
    pub auto_calib: AutoCalibration,
    /// Which subsystem may write the bias each frame.
    pub mode: CalibrationMode,
    pub settings: Settings,
}

/// The gyro sample with the current bias subtracted.
pub open spec fn s_calibrated(g: Vec3, c: CalibrationOffset) -> Vec3 {
    Vec3 {
        x: (g.x - c.bias.x) as i64,
        y: (g.y - c.bias.y) as i64,
        z: (g.z - c.bias.z) as i64,
    }
}

/// Which calibration write happens this frame: the continuous path folds the
/// raw sample outright, the automatic paths fold it scaled by confidence
/// while the detector calls the device steady.
pub open spec fn s_bias_update(
    c: CalibrationOffset,
    mode: CalibrationMode,
    g: Vec3,
    det: AutoCalibration,
    accel_msq: int,
) -> CalibrationOffset {
    if c.calibrating || mode == CalibrationMode::Continuous {
        s_folded(c, g)
    } else if mode == CalibrationMode::Automatic && det.is_steady {
        s_folded_scaled(c, g, det.confidence as int)
    } else if mode == CalibrationMode::SensorFusion && det.is_steady && ACCEL_ENTER_MIN_SQ
        <= accel_msq <= ACCEL_ENTER_MAX_SQ {
        s_folded_scaled(c, g, det.confidence as int)
    } else {
        c
    }
}

/// Half the small-angle rotation of one frame, per axis, in radians and
/// clamped defensively.
pub open spec fn s_half_angle(cal: Vec3, dt: int) -> Vec3 {
    Vec3 {
        x: i_clamp(m_fp(m_fp(cal.x as int, dt), HALF_RAD as int), -TH_CLAMP as int, TH_CLAMP as int) as i64,
        y: i_clamp(m_fp(m_fp(cal.y as int, dt), HALF_RAD as int), -TH_CLAMP as int, TH_CLAMP as int) as i64,
        z: i_clamp(m_fp(m_fp(cal.z as int, dt), HALF_RAD as int), -TH_CLAMP as int, TH_CLAMP as int) as i64,
    }
}

/// The filter gain for this frame: full near 1 g, reduced further out, zero
/// under hard linear acceleration.
pub open spec fn s_gravity_gain(accel_msq: int) -> int {
    let adev = i_abs(accel_msq - FP_SQ);
    if adev <= ADEV_SMALL {
        GAIN_HI as int
    } else if adev <= ADEV_BIG {
        GAIN_LO as int
    } else {
        0
    }
}

/// One complementary-filter step: pull each gravity component toward the
/// measured direction by the gain.
pub open spec fn s_gravity_blend(grav: Vec3, dir: Vec3, gain: int) -> Vec3 {
    Vec3 {
        x: (grav.x + m_fp(dir.x - grav.x, gain)) as i64,
        y: (grav.y + m_fp(dir.y - grav.y, gain)) as i64,
        z: (grav.z + m_fp(dir.z - grav.z, gain)) as i64,
    }
}

pub open spec fn s_clamp_grav(v: Vec3) -> Vec3 {
    Vec3 {
        x: i_clamp(v.x as int, -GRAV_LIM as int, GRAV_LIM as int) as i64,
        y: i_clamp(v.y as int, -GRAV_LIM as int, GRAV_LIM as int) as i64,
        z: i_clamp(v.z as int, -GRAV_LIM as int, GRAV_LIM as int) as i64,
    }
}

/// Orientation integration and gravity tracking for one valid frame:
/// the new orientation, gravity estimate and processed acceleration.
pub open spec fn s_motion_step(q: Quat, grav: Vec3, cal: Vec3, a: Vec3, dt: int) -> (
    Quat,
    Vec3,
    Vec3,
) {
    let amsq = s_mag_sq(a);
    let th = s_half_angle(cal, dt);
    let q2 = if th.is_zero() {
        q
    } else {
        s_renorm_or(s_q_times(q, Quat { x: th.x, y: th.y, z: th.z, w: FP }), q)
    };
    let gr = if th.is_zero() {
        grav
    } else {
        s_clamp_grav(
            s_rotate_vec(
                Quat { x: (-th.x) as i64, y: (-th.y) as i64, z: (-th.z) as i64, w: FP },
                grav,
            ),
        )
    };
    let dir = s_unit_or(a, gr);
    let gain = s_gravity_gain(amsq);
    let g2 = s_unit_or(s_gravity_blend(gr, dir, gain), s_default_up());
    (q2, g2, Vec3 { x: (a.x - g2.x) as i64, y: (a.y - g2.y) as i64, z: (a.z - g2.z) as i64 })
}

/// The whole engine state after one valid frame (dt > 0).
pub open spec fn s_process(m: GamepadMotion, g: Vec3, a: Vec3, dt: int) -> GamepadMotion {
    let cal = s_calibrated(g, m.calib);
    let gmsq = s_mag_sq(cal);
    let amsq = s_mag_sq(a);
    let det = s_autocal_step(m.auto_calib, gmsq, amsq);
    let calib = s_bias_update(m.calib, m.mode, g, det, amsq);
    let ms = s_motion_step(m.orientation, m.gravity, cal, a, dt);
    GamepadMotion {
        orientation: ms.0,
        gravity: ms.1,
        accel_processed: ms.2,
        gyro_cal: cal,
        calib,
        auto_calib: det,
        mode: m.mode,
        settings: m.settings,
    }
}

/// Integrate one frame's rotation and track gravity: the executable half of
/// [`s_motion_step`].
#[verifier::rlimit(100)]
#[verifier::spinoff_prover]
fn motion_step(q: Quat, grav: Vec3, cal: Vec3, a: Vec3, dt: i64) -> (r: (Quat, Vec3, Vec3))
    requires
        q.wf(),
        grav.bounded(GRAV_LIM as int),
        cal.bounded(2 * LIM as int),
        a.bounded(LIM as int),
        0 < dt <= DT_MAX,
    ensures
        r == s_motion_step(q, grav, cal, a, dt as int),
        r.0.wf(),
        norm_sq_ok(s_mag_sq(r.1)),
        r.1.bounded(GRAV_LIM as int),
        r.2.bounded(LIM as int + GRAV_LIM as int),
{
    let amsq: i64 = a.mag_sq();
    proof {
        lemma_m_fp_bounds(cal.x as int, dt as int, 536870912, 262144);
        lemma_m_fp_bounds(cal.y as int, dt as int, 536870912, 262144);
        lemma_m_fp_bounds(cal.z as int, dt as int, 536870912, 262144);
        lemma_m_fp_bounds(m_fp(cal.x as int, dt as int), HALF_RAD as int, 2147483648, 572);
        lemma_m_fp_bounds(m_fp(cal.y as int, dt as int), HALF_RAD as int, 2147483648, 572);
        lemma_m_fp_bounds(m_fp(cal.z as int, dt as int), HALF_RAD as int, 2147483648, 572);
    }
    let thx: i64 = clamp64(mul_fp(mul_fp(cal.x, dt), HALF_RAD), -TH_CLAMP, TH_CLAMP);
    let thy: i64 = clamp64(mul_fp(mul_fp(cal.y, dt), HALF_RAD), -TH_CLAMP, TH_CLAMP);
    let thz: i64 = clamp64(mul_fp(mul_fp(cal.z, dt), HALF_RAD), -TH_CLAMP, TH_CLAMP);
    let rotating: bool = !(thx == 0 && thy == 0 && thz == 0);
    let q2: Quat = if rotating {
        let dq = Quat { x: thx, y: thy, z: thz, w: FP };
        proof {
            lemma_wf_bounded(q);
            lemma_mul_prods_bounded(q, dq, 65540, 65536);
        }
        let qt = q.times(dq);
        proof {
            lemma_renorm_or_wf(qt, q);
        }
        qt.renorm_or(q)
    } else {
        q
    };
    let gr: Vec3 = if rotating {
        let cq = Quat { x: -thx, y: -thy, z: -thz, w: FP };
        let gr_raw = cq.rotate_vec(grav);
        Vec3 {
            x: clamp64(gr_raw.x, -GRAV_LIM, GRAV_LIM),
            y: clamp64(gr_raw.y, -GRAV_LIM, GRAV_LIM),
            z: clamp64(gr_raw.z, -GRAV_LIM, GRAV_LIM),
        }
    } else {
        grav
    };
    let dir: Vec3 = a.unit_or(gr);
    proof {
        lemma_unit_or_wf(a, gr);
    }
    let adev: i64 = abs64(amsq - FP_SQ);
    let gain: i64 = if adev <= ADEV_SMALL {
        GAIN_HI
    } else if adev <= ADEV_BIG {
        GAIN_LO
    } else {
        0
    };
    proof {
        lemma_m_fp_shrink(dir.x - gr.x, gain as int);
        lemma_m_fp_shrink(dir.y - gr.y, gain as int);
        lemma_m_fp_shrink(dir.z - gr.z, gain as int);
    }
    let bx: i64 = gr.x + mul_fp(dir.x - gr.x, gain);
    let by: i64 = gr.y + mul_fp(dir.y - gr.y, gain);
    let bz: i64 = gr.z + mul_fp(dir.z - gr.z, gain);
    let blended = Vec3 { x: bx, y: by, z: bz };
    proof {
        lemma_up_unit();
        lemma_unit_or_wf(blended, Vec3 { x: 0, y: 0, z: FP });
    }
    let g2: Vec3 = blended.unit_or(Vec3 { x: 0, y: 0, z: FP });
    (q2, g2, a.minus(g2))
}

/// The device-frame default gravity direction has exactly unit norm.
proof fn lemma_up_unit()
    ensures
        s_mag_sq(Vec3 { x: 0, y: 0, z: FP }) == FP_SQ,
        norm_sq_ok(FP_SQ as int),
{
    assert(s_mag_sq(Vec3 { x: 0, y: 0, z: FP }) == FP_SQ) by (nonlinear_arith)
        requires
            FP == 65536,
            FP_SQ == FP * FP,
    ;
}

impl GamepadMotion {
    /// The state invariant every frame re-establishes.
    pub open spec fn wf(self) -> bool {
        &&& self.orientation.wf()
        &&& norm_sq_ok(s_mag_sq(self.gravity))
        &&& self.gravity.bounded(GRAV_LIM as int)
        &&& self.accel_processed.bounded(LIM as int + GRAV_LIM as int)
        &&& self.gyro_cal.bounded(2 * LIM as int)
        &&& self.calib.wf()
        &&& self.auto_calib.wf()
        &&& self.settings.wf()
    }

    /// A fresh engine: identity orientation, gravity at its device-frame
    /// default (straight along +z, unit length), everything else zeroed,
    /// manual calibration, default settings.
    pub fn new() -> (r: GamepadMotion)
        ensures
            r.orientation.is_identity(),
            r.gravity == s_default_up(),
            r.accel_processed.is_zero(),
            r.gyro_cal.is_zero(),
            r.calib.bias.is_zero(),
            r.calib.weight == 0,
            !r.calib.calibrating,
            r.auto_calib.confidence == 0,
            !r.auto_calib.is_steady,
            r.auto_calib.run == 0,
            r.mode == CalibrationMode::Manual,
            r.settings.yaw_relax_default == DEFAULT_YAW_RELAX,
            r.settings.side_thresh_default == DEFAULT_SIDE_THRESH,
            r.wf(),
    {
        proof {
            lemma_up_unit();
        }
        GamepadMotion {
            orientation: Quat::identity(),
            gravity: Vec3 { x: 0, y: 0, z: FP },
            accel_processed: Vec3::zero(),
            gyro_cal: Vec3::zero(),
            calib: CalibrationOffset::new(),
            auto_calib: AutoCalibration::new(),
            mode: CalibrationMode::Manual,
            settings: Settings::new(),
        }
    }

    /// Fold one frame into the state. A frame with dt <= 0 changes nothing;
    /// a valid frame advances the state to exactly `s_process`.
    #[verifier::rlimit(100)]
    #[verifier::spinoff_prover]
    pub fn process(&mut self, g: Vec3, a: Vec3, dt: i64)
        requires
            old(self).wf(),
            g.bounded(LIM as int),
            a.bounded(LIM as int),
            dt <= DT_MAX,
        ensures
            final(self).wf(),
            dt <= 0 ==> *final(self) == *old(self),
            0 < dt ==> *final(self) == s_process(*old(self), g, a, dt as int),
    {
        if dt <= 0 {
            return ;
        }
        let cal: Vec3 = g.minus(self.calib.bias);
        let gmsq: i64 = cal.mag_sq();
        let amsq: i64 = a.mag_sq();
        self.auto_calib.update(gmsq, amsq);
        if self.calib.calibrating || self.mode == CalibrationMode::Continuous {
            self.calib.fold_sample(g);
        } else if self.mode == CalibrationMode::Automatic && self.auto_calib.is_steady {
            self.calib.fold_sample_scaled(g, self.auto_calib.confidence);
        } else if self.mode == CalibrationMode::SensorFusion && self.auto_calib.is_steady
            && ACCEL_ENTER_MIN_SQ <= amsq && amsq <= ACCEL_ENTER_MAX_SQ {
            self.calib.fold_sample_scaled(g, self.auto_calib.confidence);
        }
        let ms: (Quat, Vec3, Vec3) = motion_step(self.orientation, self.gravity, cal, a, dt);
        self.orientation = ms.0;
        self.gravity = ms.1;
        self.accel_processed = ms.2;
        self.gyro_cal = cal;
    }

    /// The last frame's bias-corrected gyro sample.
    pub fn gyro_calibrated(&self) -> (r: Vec3)
        ensures
            r == self.gyro_cal,
    {
        self.gyro_cal
    }

    /// Player-space aim output, (pitch rate, yaw rate); pass none to use
    /// the settings' blend factor.
    pub fn gyro_player_space(&self, yaw_relax_factor: Option<i64>) -> (r: (i64, i64))
        requires
            self.wf(),
        ensures
            ({
                let relax = match yaw_relax_factor {
                    Option::Some(v) => v as int,
                    Option::None => self.settings.yaw_relax_default as int,
                };
                (r.0 as int, r.1 as int) == s_player_space(self.gyro_cal, self.gravity, relax)
            }),
    {
        let relax: i64 = match yaw_relax_factor {
            Option::Some(v) => v,
            Option::None => self.settings.yaw_relax_default,
        };
        player_space(self.gyro_cal, self.gravity, relax)
    }

    /// World-space aim output, (pitch rate, yaw rate); the threshold is
    /// clamped into [1, FP], and the settings' default is used when a call
    /// passes none.
    pub fn gyro_world_space(&self, side_reduction_threshold: Option<i64>) -> (r: (i64, i64))
        requires
            self.wf(),
        ensures
            ({
                let t = match side_reduction_threshold {
                    Option::Some(v) => i_clamp(v as int, 1, FP as int),
                    Option::None => self.settings.side_thresh_default as int,
                };
                (r.0 as int, r.1 as int) == s_world_space(self.gyro_cal, self.gravity, t)
            }),
    {
        let thresh: i64 = match side_reduction_threshold {
            Option::Some(v) => clamp64(v, 1, FP),
            Option::None => self.settings.side_thresh_default,
        };
        world_space(self.gyro_cal, self.gravity, thresh)
    }

    pub fn calib_mode_set(&mut self, mode: CalibrationMode)
        ensures
            *final(self) == (GamepadMotion { mode, ..*old(self) }),
    {
        self.mode = mode;
    }

    pub fn calib_mode(&self) -> (r: CalibrationMode)
        ensures
            r == self.mode,
    {
        self.mode
    }

    /// Overwrite the stored bias and weight, both clamped into their
    /// representable ranges, as when restoring a saved calibration.
    pub fn calib_offset_set(&mut self, bias: Vec3, weight: i64)
        requires
            old(self).wf(),
        ensures
            final(self).calib.bias.x == i_clamp(bias.x as int, -LIM as int, LIM as int),
            final(self).calib.bias.y == i_clamp(bias.y as int, -LIM as int, LIM as int),
            final(self).calib.bias.z == i_clamp(bias.z as int, -LIM as int, LIM as int),
            final(self).calib.weight == i_clamp(weight as int, 0, WEIGHT_CAP as int),
            final(self).calib.calibrating == old(self).calib.calibrating,
            *final(self) == (GamepadMotion { calib: final(self).calib, ..*old(self) }),
            final(self).wf(),
    {
        let b = Vec3 {
            x: clamp64(bias.x, -LIM, LIM),
            y: clamp64(bias.y, -LIM, LIM),
            z: clamp64(bias.z, -LIM, LIM),
        };
        let w: i64 = clamp64(weight, 0, WEIGHT_CAP);
        self.calib.set(b, w);
    }

    /// The stored bias and its weight.
    pub fn calib_offset(&self) -> (r: (Vec3, i64))
        ensures
            r.0 == self.calib.bias,
            r.1 == self.calib.weight,
    {
        (self.calib.bias, self.calib.weight)
    }

    pub fn orientation(&self) -> (r: Quat)
        ensures
            r == self.orientation,
    {
        self.orientation
    }

    pub fn gravity(&self) -> (r: Vec3)
        ensures
            r == self.gravity,
    {
        self.gravity
    }

    pub fn accel_processed(&self) -> (r: Vec3)
        ensures
            r == self.accel_processed,
    {
        self.accel_processed
    }

    /// Arm the continuous path: every following frame folds its sample.
    pub fn calib_cont_start(&mut self)
        ensures
            *final(self) == (GamepadMotion { calib: final(self).calib, ..*old(self) }),
            final(self).calib == (CalibrationOffset { calibrating: true, ..old(self).calib }),
    {
        self.calib.calibrating = true;
    }

    /// Disarm the continuous path, keeping what was learned.
    pub fn calib_cont_pause(&mut self)
        ensures
            *final(self) == (GamepadMotion { calib: final(self).calib, ..*old(self) }),
            final(self).calib == (CalibrationOffset { calibrating: false, ..old(self).calib }),
    {
        self.calib.calibrating = false;
    }

    /// Drop the learned bias and weight; the armed flag is untouched.
    pub fn calib_cont_reset(&mut self)
        ensures
            *final(self) == (GamepadMotion { calib: final(self).calib, ..*old(self) }),
            final(self).calib.bias.is_zero(),
            final(self).calib.weight == 0,
            final(self).calib.calibrating == old(self).calib.calibrating,
            old(self).wf() ==> final(self).wf(),
    {
        self.calib.bias = Vec3 { x: 0, y: 0, z: 0 };
        self.calib.weight = 0;
    }

    pub fn calib_auto_steady(&self) -> (r: bool)
        ensures
            r == self.auto_calib.is_steady,
    {
        self.auto_calib.is_steady
    }

    pub fn calib_auto_confid(&self) -> (r: i64)
        ensures
            r == self.auto_calib.confidence,
    {
        self.auto_calib.confidence
    }

    /// Seed or clamp the detector's confidence (clamped into [0, FP]).
    pub fn calib_auto_confid_set(&mut self, confidence: i64)
        ensures
            *final(self) == (GamepadMotion { auto_calib: final(self).auto_calib, ..*old(self) }),
            final(self).auto_calib == (AutoCalibration {
                confidence: i_clamp(confidence as int, 0, FP as int) as i64,
                ..old(self).auto_calib
            }),
            old(self).wf() ==> final(self).wf(),
    {
        self.auto_calib.confidence = clamp64(confidence, 0, FP);
    }

    /// Full reinitialization: calibration, orientation, gravity and the
    /// detector all return to their initial values; mode and settings stay.
    pub fn reset(&mut self)
        ensures
            final(self).orientation.is_identity(),
            final(self).gravity == s_default_up(),
            final(self).accel_processed.is_zero(),
            final(self).gyro_cal.is_zero(),
            final(self).calib.bias.is_zero(),
            final(self).calib.weight == 0,
            !final(self).calib.calibrating,
            final(self).auto_calib.confidence == 0,
            !final(self).auto_calib.is_steady,
            final(self).auto_calib.run == 0,
            final(self).mode == old(self).mode,
            final(self).settings == old(self).settings,
            old(self).wf() ==> final(self).wf(),
    {
        proof {
            lemma_up_unit();
        }
        self.orientation = Quat::identity();
        self.gravity = Vec3 { x: 0, y: 0, z: FP };
        self.accel_processed = Vec3::zero();
        self.gyro_cal = Vec3::zero();
        self.calib = CalibrationOffset::new();
        self.auto_calib.reset();
    }

    /// Reinitialize only the motion state: the learned calibration offset
    /// and the detector stay as they are.
    pub fn reset_motion(&mut self)
        ensures
            final(self).orientation.is_identity(),
            final(self).gravity == s_default_up(),
            final(self).accel_processed.is_zero(),
            final(self).gyro_cal.is_zero(),
            final(self).calib == old(self).calib,
            final(self).auto_calib == old(self).auto_calib,
            final(self).mode == old(self).mode,
            final(self).settings == old(self).settings,
            old(self).wf() ==> final(self).wf(),
    {
        proof {
            lemma_up_unit();
        }
        self.orientation = Quat::identity();
        self.gravity = Vec3 { x: 0, y: 0, z: FP };
        self.accel_processed = Vec3::zero();
        self.gyro_cal = Vec3::zero();
    }
}

/// Feeding the stored bias back as the gyro sample cancels exactly: the
/// calibrated gyro is zero, the orientation does not move, and the bias
/// itself stays put, so the cancellation repeats frame after frame.
pub proof fn lemma_bias_cancels(st: GamepadMotion, a: Vec3, dt: int)
    requires
        st.wf(),
        0 < dt <= DT_MAX,
    ensures
        s_process(st, st.calib.bias, a, dt).gyro_cal.is_zero(),
        s_process(st, st.calib.bias, a, dt).orientation == st.orientation,
        s_process(st, st.calib.bias, a, dt).calib.bias == st.calib.bias,
        s_process(st, st.calib.bias, a, dt).gravity == s_unit_or(
            s_gravity_blend(st.gravity, s_unit_or(a, st.gravity), s_gravity_gain(s_mag_sq(a))),
            s_default_up(),
        ),
{
    let g = st.calib.bias;
    let cal = s_calibrated(g, st.calib);
    assert(cal.is_zero());
    lemma_zero_half_angle(dt);
    let det = s_autocal_step(st.auto_calib, s_mag_sq(cal), s_mag_sq(a));
    lemma_fold_fixpoint(st.calib, det.confidence as int);
}

/// A zero calibrated gyro gives a zero half-angle, whatever dt is.
proof fn lemma_zero_half_angle(dt: int)
    ensures
        s_half_angle(Vec3 { x: 0, y: 0, z: 0 }, dt).is_zero(),
{
    lemma_mul_basics(dt);
    lemma_div_of0(FP as int);
    assert(m_fp(0, dt) == 0);
    lemma_mul_basics(HALF_RAD as int);
    assert(m_fp(0, HALF_RAD as int) == 0);
}

/// Folding a sample equal to the stored bias never moves the bias, with or
/// without confidence scaling.
proof fn lemma_fold_fixpoint(c: CalibrationOffset, conf: int)
    requires
        c.wf(),
        0 <= conf <= FP,
    ensures
        s_folded(c, c.bias).bias == c.bias,
        s_folded_scaled(c, c.bias, conf).bias == c.bias,
{
    let k = crate::calib::s_fold_k(c.weight as int);
    lemma_fold_between(c.bias.x as int, c.bias.x as int, k);
    lemma_fold_between(c.bias.y as int, c.bias.y as int, k);
    lemma_fold_between(c.bias.z as int, c.bias.z as int, k);
    lemma_div_of0(k);
    lemma_mul_basics(conf);
    assert(m_fp(0, conf) == 0) by {
        assert(0 * conf == 0);
        lemma_div_of0(FP as int);
    }
}

/// The state after n frames of a resting controller: the stored bias fed
/// back as the gyro sample and a clean 1 g reading along +z.
pub open spec fn s_rest_frames(st: GamepadMotion, dt: int, n: nat) -> GamepadMotion
    decreases n,
{
    if n == 0 {
        st
    } else {
        let p = s_rest_frames(st, dt, (n - 1) as nat);
        s_process(p, p.calib.bias, Vec3 { x: 0, y: 0, z: FP }, dt)
    }
}

/// A clean 1 g reading along +z rescales to itself exactly.
proof fn lemma_unit_up(f: Vec3)
    ensures
        s_unit_or(Vec3 { x: 0, y: 0, z: FP }, f) == (Vec3 { x: 0, y: 0, z: FP }),
{
    let up = Vec3 { x: 0, y: 0, z: FP };
    assert(s_mag_sq(up) == FP_SQ) by (nonlinear_arith)
        requires
            up.x == 0,
            up.y == 0,
            up.z == FP,
            FP == 65536,
            FP_SQ == FP * FP,
    ;
    assert((FP as int) * (FP as int) <= FP_SQ < ((FP as int) + 1) * ((FP as int) + 1))
        by (nonlinear_arith)
        requires
            FP == 65536,
            FP_SQ == FP * FP,
    ;
    crate::fx::lemma_sqrt_floor_unique(FP_SQ as nat, FP as nat);
    lemma_mul_basics(FP as int);
    lemma_div_of0(FP as int);
    vstd::arithmetic::div_mod::lemma_div_multiples_vanish(FP as int, FP as int);
    lemma_mul_basics(0);
}

/// A resting controller at its settled attitude: with the gravity estimate
/// at its device-frame default (the state every reset leaves behind),
/// feeding the stored bias as the gyro and a clean 1 g reading along +z,
/// frame after frame, moves nothing. The orientation, the gravity direction
/// and the stored bias hold exactly, the state stays well-formed, and the
/// processed acceleration is exactly zero: the measured direction is a
/// fixed point of the complementary filter.
pub proof fn lemma_rest_frames_hold(st: GamepadMotion, dt: int, n: nat)
    requires
        st.wf(),
        st.gravity == s_default_up(),
        0 < dt <= DT_MAX as int,
    ensures
        s_rest_frames(st, dt, n).wf(),
        s_rest_frames(st, dt, n).orientation == st.orientation,
        s_rest_frames(st, dt, n).calib.bias == st.calib.bias,
        s_rest_frames(st, dt, n).gravity == s_default_up(),
        n > 0 ==> s_rest_frames(st, dt, n).accel_processed.is_zero(),
    decreases n,
{
    let up = Vec3 { x: 0, y: 0, z: FP };
    if n == 0 {
    } else {
        lemma_rest_frames_hold(st, dt, (n - 1) as nat);
        let p = s_rest_frames(st, dt, (n - 1) as nat);
        lemma_bias_cancels(p, up, dt);
        assert(s_mag_sq(up) == FP_SQ) by (nonlinear_arith)
            requires
                up.x == 0,
                up.y == 0,
                up.z == FP,
                FP == 65536,
                FP_SQ == FP * FP,
        ;
        lemma_unit_up(p.gravity);
        lemma_mul_basics(s_gravity_gain(s_mag_sq(up)));
        lemma_div_of0(FP as int);
        lemma_unit_up(up);
        lemma_zero_half_angle(dt);
    }
}

/// One complementary-filter step never pushes a gravity component past the
/// measured direction, and never moves it further away.
pub proof fn lemma_gravity_blend_approaches(grav: Vec3, dir: Vec3, gain: int)
    requires
        0 <= gain <= FP,
    ensures
        i_abs(s_gravity_blend(grav, dir, gain).x - dir.x) <= i_abs(grav.x - dir.x),
        i_abs(s_gravity_blend(grav, dir, gain).y - dir.y) <= i_abs(grav.y - dir.y),
        i_abs(s_gravity_blend(grav, dir, gain).z - dir.z) <= i_abs(grav.z - dir.z),
        i_min(grav.x as int, dir.x as int) <= s_gravity_blend(grav, dir, gain).x <= crate::fx::i_max(
            grav.x as int,
            dir.x as int,
        ),
{
    lemma_m_fp_shrink(dir.x - grav.x, gain);
    lemma_m_fp_shrink(dir.y - grav.y, gain);
    lemma_m_fp_shrink(dir.z - grav.z, gain);
}

} // verus!
