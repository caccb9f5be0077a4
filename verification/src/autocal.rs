//! Steadiness detection: classifies the device as at rest, with hysteresis
//! and debouncing, and tracks a confidence that rises while it stays still.

use vstd::prelude::*;

verus! {

use crate::fx::FP;
use crate::fx::i_min;
use crate::fx::i_max;
use crate::fx::min64;
use crate::fx::max64;

/// Frames of sustained calm required before the device counts as steady.
pub const STEADY_FRAMES: i64 = 16;

/// Squared gyro-magnitude threshold to enter steadiness (1.25 deg/s).
pub const GYRO_ENTER_SQ: i64 = 6710886400;

/// Squared gyro-magnitude threshold to stay steady (2.5 deg/s, wider).
pub const GYRO_EXIT_SQ: i64 = 26843545600;

/// Squared accel-magnitude window to enter steadiness (within 10% of 1 g).
pub const ACCEL_ENTER_MIN_SQ: i64 = 3478923878;

pub const ACCEL_ENTER_MAX_SQ: i64 = 5196910428;

/// Squared accel-magnitude window to stay steady (within 20% of 1 g, wider).
pub const ACCEL_EXIT_MIN_SQ: i64 = 2748779069;

pub const ACCEL_EXIT_MAX_SQ: i64 = 6184752906;

/// Confidence gained per calm frame.
pub const CONF_RISE: i64 = 4096;

/// Confidence lost per frame of motion.
pub const CONF_DECAY: i64 = 8192;

/// The rolling steadiness state.
#[derive(Clone, Copy, PartialEq, Eq, Structural, Debug)]
pub struct AutoCalibration {
    /// How sure the detector is that the device rests, in [0, FP].
    pub confidence: i64,
    /// Debounced steadiness classification.
    pub is_steady: bool,
    /// Consecutive calm frames so far, capped at STEADY_FRAMES.
    pub run: i64,
}

/// A frame is calm for entering steadiness: slow rotation, acceleration
/// close to 1 g.
pub open spec fn s_calm_enter(gyro_msq: int, accel_msq: int) -> bool {
    gyro_msq < GYRO_ENTER_SQ && ACCEL_ENTER_MIN_SQ <= accel_msq <= ACCEL_ENTER_MAX_SQ
}

/// A frame is calm for staying steady: the wider hysteresis window.
pub open spec fn s_calm_exit(gyro_msq: int, accel_msq: int) -> bool {
    gyro_msq < GYRO_EXIT_SQ && ACCEL_EXIT_MIN_SQ <= accel_msq <= ACCEL_EXIT_MAX_SQ
}

/// Which window applies this frame.
pub open spec fn s_calm(st: AutoCalibration, gyro_msq: int, accel_msq: int) -> bool {
    if st.is_steady {
        s_calm_exit(gyro_msq, accel_msq)
    } else {
        s_calm_enter(gyro_msq, accel_msq)
    }
}

/// The detector after one frame of squared gyro and accel magnitudes.
pub open spec fn s_autocal_step(st: AutoCalibration, gyro_msq: int, accel_msq: int)
    -> AutoCalibration {
    if s_calm(st, gyro_msq, accel_msq) {
        AutoCalibration {
            confidence: i_min(st.confidence + CONF_RISE, FP as int) as i64,
            is_steady: st.run + 1 >= STEADY_FRAMES,
            run: i_min(st.run + 1, STEADY_FRAMES as int) as i64,
        }
    } else {
        AutoCalibration {
            confidence: i_max(st.confidence - CONF_DECAY, 0) as i64,
            is_steady: false,
            run: 0,
        }
    }
}

impl AutoCalibration {
    pub open spec fn wf(self) -> bool {
        &&& 0 <= self.confidence <= FP
        &&& 0 <= self.run <= STEADY_FRAMES
        &&& (self.is_steady ==> self.run == STEADY_FRAMES)
    }

    /// A fresh detector: no confidence, not steady.
    pub fn new() -> (r: AutoCalibration)
        ensures
            r.confidence == 0,
            !r.is_steady,
            r.run == 0,
            r.wf(),
    {
        AutoCalibration { confidence: 0, is_steady: false, run: 0 }
    }

    /// Debounced steadiness.
    pub fn steady(&self) -> (r: bool)
        ensures
            r == self.is_steady,
    {
        self.is_steady
    }

    /// Clear the rolling state: confidence to zero, not steady.
    pub fn reset(&mut self)
        ensures
            final(self).confidence == 0,
            !final(self).is_steady,
            final(self).run == 0,
            final(self).wf(),
    {
        self.confidence = 0;
        self.is_steady = false;
        self.run = 0;
    }

    /// Seed or clamp the confidence, as when restoring a saved calibration.
    pub fn set_confidence(&mut self, confidence: i64)
        requires
            0 <= confidence <= FP,
        ensures
            final(self).confidence == confidence,
            final(self).is_steady == old(self).is_steady,
            final(self).run == old(self).run,
            old(self).wf() ==> final(self).wf(),
    {
        self.confidence = confidence;
    }

    /// Fold one frame's squared gyro and accel magnitudes into the state.
    pub fn update(&mut self, gyro_msq: i64, accel_msq: i64)
        requires
            old(self).wf(),
        ensures
            *final(self) == s_autocal_step(*old(self), gyro_msq as int, accel_msq as int),
            final(self).wf(),
    {
        let calm: bool = if self.is_steady {
            gyro_msq < GYRO_EXIT_SQ && ACCEL_EXIT_MIN_SQ <= accel_msq && accel_msq
                <= ACCEL_EXIT_MAX_SQ
        } else {
            gyro_msq < GYRO_ENTER_SQ && ACCEL_ENTER_MIN_SQ <= accel_msq && accel_msq
                <= ACCEL_ENTER_MAX_SQ
        };
        if calm {
            self.run = min64(self.run + 1, STEADY_FRAMES);
            self.is_steady = self.run >= STEADY_FRAMES;
            self.confidence = min64(self.confidence + CONF_RISE, FP);
        } else {
            self.run = 0;
            self.is_steady = false;
            self.confidence = max64(self.confidence - CONF_DECAY, 0);
        }
    }
}

/// Confidence rises while the frames stay calm and decays when calm breaks,
/// and a single calm frame never flips the detector to steady: that takes a
/// sustained run.
pub proof fn lemma_confidence_and_debounce(st: AutoCalibration, gyro_msq: int, accel_msq: int)
    requires
        st.wf(),
    ensures
        s_calm(st, gyro_msq, accel_msq) ==> s_autocal_step(st, gyro_msq, accel_msq).confidence
            >= st.confidence,
        !s_calm(st, gyro_msq, accel_msq) ==> s_autocal_step(st, gyro_msq, accel_msq).confidence
            <= st.confidence,
        !st.is_steady && st.run + 1 < STEADY_FRAMES ==> !s_autocal_step(
            st,
            gyro_msq,
            accel_msq,
        ).is_steady,
        s_autocal_step(st, gyro_msq, accel_msq).is_steady ==> s_calm(st, gyro_msq, accel_msq),
{
}

} // verus!
