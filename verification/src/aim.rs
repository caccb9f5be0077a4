//! Gyro-to-aim mapping: 2D angular-velocity outputs for camera control,
//! each with its own singularity-avoiding attenuation.
//!
//! Conventions: the device x axis is the local pitch axis, z the local yaw
//! axis; the gravity estimate points along +z when the controller lies flat.

use vstd::prelude::*;

verus! {

use vstd::arithmetic::mul::lemma_mul_basics;
use crate::fx::FP;
use crate::fx::LIM;
use crate::fx::d_tz;
use crate::fx::m_fp;
use crate::fx::i_abs;
use crate::fx::i_max;
use crate::fx::i_clamp;
use crate::fx::lemma_mul_bounds;
use crate::fx::lemma_d_tz_bounds;
use crate::fx::lemma_d_tz_monotone;
use crate::fx::lemma_m_fp_bounds;
use crate::fx::lemma_m_fp_shrink;
use crate::fx::abs64;
use crate::fx::div_tz;
use crate::fx::max64;
use crate::fx::clamp64;
use crate::fx::mul_fp;
use crate::vec3::Vec3;
use crate::vec3::DOT_LIM;
use crate::vec3::s_dot_fp;
use crate::vec3::s_unit_or;
use crate::vec3::s_mag_sq;
use crate::vec3::lemma_unit_or_wf;

/// Default blend factor of the player-space mapper (1.41).
pub const DEFAULT_YAW_RELAX: i64 = 92406;

/// Default attenuation threshold of the world-space mapper (0.125).
pub const DEFAULT_SIDE_THRESH: i64 = 8192;

/// The direction assumed for gravity when its estimate is degenerate.
pub open spec fn s_default_up() -> Vec3 {
    Vec3 { x: 0, y: 0, z: FP }
}

/// Player-space output: pitch is the local pitch rate; yaw blends the local
/// yaw rate toward the world yaw rate (the gyro component around gravity) by
/// the relax factor, scaled by how far gravity is from the local yaw axis'
/// singular configuration.
pub open spec fn s_player_space(gyro: Vec3, gravity: Vec3, relax: int) -> (int, int) {
    let u = s_unit_or(gravity, s_default_up());
    let world_yaw = s_dot_fp(gyro, u);
    let k = m_fp(i_clamp(relax, 0, 2 * FP as int), i_abs(u.z as int));
    (gyro.x as int, gyro.z + m_fp(k, world_yaw - gyro.z))
}

/// The horizontal pitch axis of the world-space mapper: the device x axis
/// with its component along world-up removed (not yet normalized).
pub open spec fn s_world_pitch_axis_raw(u: Vec3) -> Vec3 {
    Vec3 {
        x: (FP - m_fp(u.x as int, u.x as int)) as i64,
        y: (-m_fp(u.x as int, u.y as int)) as i64,
        z: (-m_fp(u.x as int, u.z as int)) as i64,
    }
}

/// The unattenuated world-space pitch rate: the gyro projected onto the
/// horizontal axis orthogonal to world-up (zero when that axis degenerates).
pub open spec fn s_world_pitch_raw(gyro: Vec3, gravity: Vec3) -> int {
    let u = s_unit_or(gravity, s_default_up());
    let pa = s_unit_or(s_world_pitch_axis_raw(u), Vec3 { x: 0, y: 0, z: 0 });
    s_dot_fp(gyro, pa)
}

/// How far the device is from pointing straight at world-up: large while
/// flat or rolled, near zero when the forward (x) axis is vertical.
pub open spec fn s_world_side(gravity: Vec3) -> int {
    let u = s_unit_or(gravity, s_default_up());
    i_max(i_abs(u.y as int), i_abs(u.z as int))
}

/// The attenuation factor in [0, FP]: zero at or below the threshold, full
/// strength from twice the threshold up, a linear ramp in between.
pub open spec fn s_world_reduction(gravity: Vec3, thresh: int) -> int {
    i_clamp(d_tz((s_world_side(gravity) - thresh) * FP, thresh), 0, FP as int)
}

/// World-space output: yaw is the gyro component around world-up; pitch is
/// the projection onto the horizontal axis, attenuated near the singularity.
pub open spec fn s_world_space(gyro: Vec3, gravity: Vec3, thresh: int) -> (int, int) {
    let u = s_unit_or(gravity, s_default_up());
    (
        m_fp(s_world_reduction(gravity, thresh), s_world_pitch_raw(gyro, gravity)),
        s_dot_fp(gyro, u),
    )
}

/// Magnitude bounds shared by both mappers: the unit direction, the dot of
/// a calibrated gyro with a near-unit vector, and the pitch axis.
proof fn lemma_aim_bounds(gyro: Vec3, v: Vec3)
    requires
        gyro.bounded(2 * LIM as int),
        v.bounded(2 * FP as int),
    ensures
        -3221225472 <= s_dot_fp(gyro, v) <= 3221225472,
{
    lemma_mul_bounds(gyro.x as int, v.x as int, 536870912, 131072);
    lemma_mul_bounds(gyro.y as int, v.y as int, 536870912, 131072);
    lemma_mul_bounds(gyro.z as int, v.z as int, 536870912, 131072);
    lemma_d_tz_bounds(
        gyro.x * v.x + gyro.y * v.y + gyro.z * v.z,
        211106232532992,
        FP as int,
    );
}

/// The player-space aim output: (pitch rate, yaw rate).
pub fn player_space(gyro: Vec3, gravity: Vec3, relax: i64) -> (r: (i64, i64))
    requires
        gyro.bounded(2 * LIM as int),
        gravity.bounded(DOT_LIM as int),
    ensures
        (r.0 as int, r.1 as int) == s_player_space(gyro, gravity, relax as int),
{
    let u: Vec3 = gravity.unit_or(Vec3 { x: 0, y: 0, z: FP });
    proof {
        lemma_unit_or_wf(gravity, s_default_up());
        lemma_aim_bounds(gyro, u);
    }
    let world_yaw: i64 = gyro.dot_fp(u);
    let rc: i64 = clamp64(relax, 0, 2 * FP);
    let az: i64 = abs64(u.z);
    proof {
        lemma_m_fp_bounds(rc as int, az as int, 131072, 131072);
    }
    let k: i64 = mul_fp(rc, az);
    let diff: i64 = world_yaw - gyro.z;
    proof {
        lemma_mul_bounds(k as int, diff as int, 262144, 4294967296);
        lemma_d_tz_bounds(k * diff, 1125899906842624, FP as int);
    }
    let adj: i64 = div_tz(k * diff, FP);
    (gyro.x, gyro.z + adj)
}

/// The world-space aim output: (pitch rate, yaw rate).
pub fn world_space(gyro: Vec3, gravity: Vec3, thresh: i64) -> (r: (i64, i64))
    requires
        gyro.bounded(2 * LIM as int),
        gravity.bounded(DOT_LIM as int),
        1 <= thresh <= FP,
    ensures
        (r.0 as int, r.1 as int) == s_world_space(gyro, gravity, thresh as int),
{
    let u: Vec3 = gravity.unit_or(Vec3 { x: 0, y: 0, z: FP });
    proof {
        lemma_unit_or_wf(gravity, s_default_up());
        lemma_aim_bounds(gyro, u);
        lemma_m_fp_bounds(u.x as int, u.x as int, 2 * FP as int, 2 * FP as int);
        lemma_m_fp_bounds(u.x as int, u.y as int, 2 * FP as int, 2 * FP as int);
        lemma_m_fp_bounds(u.x as int, u.z as int, 2 * FP as int, 2 * FP as int);
    }
    let yaw: i64 = gyro.dot_fp(u);
    let pa_raw: Vec3 = Vec3 {
        x: FP - mul_fp(u.x, u.x),
        y: -mul_fp(u.x, u.y),
        z: -mul_fp(u.x, u.z),
    };
    let pa: Vec3 = pa_raw.unit_or(Vec3 { x: 0, y: 0, z: 0 });
    proof {
        lemma_unit_or_wf(pa_raw, Vec3 { x: 0, y: 0, z: 0 });
        lemma_aim_bounds(gyro, pa);
    }
    let pitch: i64 = gyro.dot_fp(pa);
    let side: i64 = max64(abs64(u.y), abs64(u.z));
    proof {
        lemma_mul_bounds(side - thresh, FP as int, 3 * FP as int, FP as int);
        lemma_d_tz_bounds((side - thresh) * FP, 3 * FP as int * FP as int, thresh as int);
    }
    let red: i64 = clamp64(div_tz((side - thresh) * FP, thresh), 0, FP);
    proof {
        lemma_mul_bounds(red as int, pitch as int, FP as int, 3221225472);
        lemma_d_tz_bounds(red * pitch, 211106232532992, FP as int);
    }
    let out_pitch: i64 = div_tz(red * pitch, FP);
    (out_pitch, yaw)
}

/// With a relax factor of zero, player space is the pure local frame: the
/// raw pitch and yaw rates pass through untouched, whatever gravity says.
pub proof fn lemma_player_space_zero_relax(gyro: Vec3, gravity: Vec3)
    ensures
        s_player_space(gyro, gravity, 0) == (gyro.x as int, gyro.z as int),
{
    let u = s_unit_or(gravity, s_default_up());
    let world_yaw = s_dot_fp(gyro, u);
    lemma_mul_basics(i_abs(u.z as int));
    assert(m_fp(0, i_abs(u.z as int)) == 0) by {
        assert(0 * i_abs(u.z as int) == 0);
        assert(d_tz(0, FP as int) == 0) by {
            vstd::arithmetic::div_mod::lemma_div_of0(FP as int);
        }
    }
    lemma_mul_basics(world_yaw - gyro.z);
    assert(m_fp(0, world_yaw - gyro.z) == 0) by {
        assert(0 * (world_yaw - gyro.z) == 0);
        assert(d_tz(0, FP as int) == 0) by {
            vstd::arithmetic::div_mod::lemma_div_of0(FP as int);
        }
    }
}

/// The attenuation factor only falls as the forward axis approaches
/// world-up: a gravity estimate with a smaller side measure (closer to the
/// singular, straight-up attitude) never gets the larger factor.
pub proof fn lemma_world_reduction_monotone(g1: Vec3, g2: Vec3, thresh: int)
    requires
        1 <= thresh,
        s_world_side(g1) <= s_world_side(g2),
    ensures
        s_world_reduction(g1, thresh) <= s_world_reduction(g2, thresh),
{
    let s1 = s_world_side(g1);
    let s2 = s_world_side(g2);
    assert((s1 - thresh) * FP <= (s2 - thresh) * FP) by (nonlinear_arith)
        requires
            s1 <= s2,
            FP == 65536,
    ;
    lemma_d_tz_monotone((s1 - thresh) * FP, (s2 - thresh) * FP, thresh);
}

/// Attenuating the same raw projection by a smaller factor never yields the
/// larger output magnitude: together with the factor's monotonicity, the
/// pitch output shrinks monotonically as the attitude nears the singularity.
pub proof fn lemma_attenuation_ordered(red1: int, red2: int, p: int)
    requires
        0 <= red1 <= red2,
    ensures
        i_abs(m_fp(red1, p)) <= i_abs(m_fp(red2, p)),
{
    if p >= 0 {
        assert(0 <= red1 * p <= red2 * p) by (nonlinear_arith)
            requires
                0 <= red1 <= red2,
                0 <= p,
        ;
        lemma_d_tz_monotone(red1 * p, red2 * p, FP as int);
        vstd::arithmetic::div_mod::lemma_div_pos_is_pos(red1 * p, FP as int);
        vstd::arithmetic::div_mod::lemma_div_pos_is_pos(red2 * p, FP as int);
    } else {
        assert(red2 * p <= red1 * p <= 0) by (nonlinear_arith)
            requires
                0 <= red1 <= red2,
                p <= 0,
        ;
        lemma_d_tz_monotone(red2 * p, red1 * p, FP as int);
        vstd::arithmetic::div_mod::lemma_div_pos_is_pos(-(red1 * p), FP as int);
        vstd::arithmetic::div_mod::lemma_div_pos_is_pos(-(red2 * p), FP as int);
    }
}

/// World-space pitch is fully attenuated once the forward axis is within
/// the threshold of world-up, and is never amplified past the raw
/// projection: the output shrinks near the singularity instead of diverging.
pub proof fn lemma_world_space_attenuation(gyro: Vec3, gravity: Vec3, thresh: int)
    requires
        1 <= thresh,
    ensures
        s_world_side(gravity) <= thresh ==> s_world_space(gyro, gravity, thresh).0 == 0,
        i_abs(s_world_space(gyro, gravity, thresh).0) <= i_abs(s_world_pitch_raw(gyro, gravity)),
{
    let side = s_world_side(gravity);
    let pitch = s_world_pitch_raw(gyro, gravity);
    let red = s_world_reduction(gravity, thresh);
    if side <= thresh {
        let a = (side - thresh) * FP;
        assert(a <= 0) by (nonlinear_arith)
            requires
                side <= thresh,
                a == (side - thresh) * FP,
                FP == 65536,
        ;
        if a < 0 {
            vstd::arithmetic::div_mod::lemma_div_pos_is_pos(-a, thresh);
        } else {
            vstd::arithmetic::div_mod::lemma_div_of0(thresh);
        }
        assert(d_tz(a, thresh) <= 0);
        assert(red == 0);
        lemma_mul_basics(pitch);
        assert(m_fp(0, pitch) == 0) by {
            assert(0 * pitch == 0);
            vstd::arithmetic::div_mod::lemma_div_of0(FP as int);
        }
    }
    vstd::arithmetic::mul::lemma_mul_is_commutative(red, pitch);
    lemma_m_fp_shrink(pitch, red);
}

} // verus!
