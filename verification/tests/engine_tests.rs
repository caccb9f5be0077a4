use gamepad_motion::AutoCalibration;
use gamepad_motion::CalibrationMode;
use gamepad_motion::GamepadMotion;
use gamepad_motion::Quat;
use gamepad_motion::Settings;
use gamepad_motion::Vec3;

const FP: i64 = 65536;
const FP_SQ: i64 = FP * FP;

fn v(x: i64, y: i64, z: i64) -> Vec3 {
    Vec3 { x, y, z }
}

fn norm_sq(q: Quat) -> i64 {
    q.x * q.x + q.y * q.y + q.z * q.z + q.w * q.w
}

/// A tiny deterministic generator for stress inputs.
struct Lcg(u64);

impl Lcg {
    fn next(&mut self) -> u64 {
        self.0 = self.0.wrapping_mul(6364136223846793005).wrapping_add(1442695040888963407);
        self.0 >> 16
    }

    fn pick(&mut self, lo: i64, hi: i64) -> i64 {
        lo + (self.next() % ((hi - lo + 1) as u64)) as i64
    }
}

#[test]
fn quaternion_norm_stays_near_unit() {
    let mut m = GamepadMotion::new();
    let mut rng = Lcg(7);
    let dt = FP / 100;
    for _ in 0..500 {
        let g = v(
            rng.pick(-200 * FP, 200 * FP),
            rng.pick(-200 * FP, 200 * FP),
            rng.pick(-200 * FP, 200 * FP),
        );
        let a = v(
            rng.pick(-2 * FP, 2 * FP),
            rng.pick(-2 * FP, 2 * FP),
            rng.pick(-2 * FP, 2 * FP),
        );
        m.process(g, a, dt);
        let q = m.orientation();
        let nsq = norm_sq(q);
        assert!(
            (nsq - FP_SQ).abs() <= 8 * FP,
            "norm drifted off the unit shell: {nsq}"
        );
        let gr = m.gravity();
        let gsq = gr.x * gr.x + gr.y * gr.y + gr.z * gr.z;
        assert!(
            (gsq - FP_SQ).abs() <= 8 * FP,
            "gravity drifted off the unit shell: {gsq}"
        );
    }
}

#[test]
fn rest_frames_converge_gravity_and_keep_orientation() {
    let mut m = GamepadMotion::new();
    let q0 = m.orientation();
    let dt = FP / 100;
    // Gravity starts at its unit default, so already the first rest frame
    // reports unit-length gravity and near-zero processed acceleration.
    m.process(v(0, 0, 0), v(0, 0, FP), dt);
    let g1 = m.gravity();
    let nsq = g1.x * g1.x + g1.y * g1.y + g1.z * g1.z;
    assert!((nsq - FP_SQ).abs() <= 8 * FP, "gravity off the unit shell: {nsq}");
    assert_eq!(m.accel_processed(), v(0, 0, 0));
    for _ in 0..500 {
        m.process(v(0, 0, 0), v(0, 0, FP), dt);
        assert_eq!(m.orientation(), q0, "orientation moved with zero gyro");
    }
    assert_eq!(m.gravity(), v(0, 0, FP));
    assert_eq!(m.accel_processed(), v(0, 0, 0));
}

#[test]
fn stored_bias_cancels_exactly() {
    let bias = v(3 * FP, -2 * FP, FP / 2);
    let mut m = GamepadMotion::new();
    m.calib_offset_set(bias, 100);
    let (b, w) = m.calib_offset();
    assert_eq!(b, bias);
    assert_eq!(w, 100);
    for _ in 0..10 {
        m.process(bias, v(0, 0, FP), FP / 100);
        assert_eq!(m.gyro_calibrated(), v(0, 0, 0));
    }
    // The stored bias itself stays put while it is being fed back.
    assert_eq!(m.calib_offset().0, bias);
}

#[test]
fn continuous_calibration_converges_to_constant_sample() {
    let c = v(5 * FP, -3 * FP, 2 * FP);
    let mut m = GamepadMotion::new();
    m.calib_cont_start();
    let mut last_w: i64 = 0;
    for _ in 0..600 {
        m.process(c, v(0, 0, FP), FP / 100);
        let (_, w) = m.calib_offset();
        assert!(w >= last_w, "weight decreased");
        assert!(w <= 256, "weight passed its cap");
        last_w = w;
    }
    assert_eq!(last_w, 256);
    let (b, _) = m.calib_offset();
    assert!((b.x - c.x).abs() < 256, "bias x: {} vs {}", b.x, c.x);
    assert!((b.y - c.y).abs() < 256, "bias y: {} vs {}", b.y, c.y);
    assert!((b.z - c.z).abs() < 256, "bias z: {} vs {}", b.z, c.z);
    // Pausing stops further updates.
    m.calib_cont_pause();
    let before = m.calib_offset();
    m.process(v(9 * FP, 9 * FP, 9 * FP), v(0, 0, FP), FP / 100);
    assert_eq!(m.calib_offset(), before);
}

#[test]
fn first_fold_takes_the_sample_outright() {
    let mut m = GamepadMotion::new();
    m.calib_cont_start();
    m.process(v(1000, -500, 250), v(0, 0, FP), FP / 100);
    let (b, w) = m.calib_offset();
    assert_eq!((b, w), (v(1000, -500, 250), 1));
    // Second fold averages with divisor two.
    m.process(v(2000, -500, 250), v(0, 0, FP), FP / 100);
    let (b2, w2) = m.calib_offset();
    assert_eq!((b2, w2), (v(1500, -500, 250), 2));
}

#[test]
fn confidence_rises_while_steady_and_decays_on_motion() {
    let mut m = GamepadMotion::new();
    m.calib_mode_set(CalibrationMode::Automatic);
    assert_eq!(m.calib_mode(), CalibrationMode::Automatic);
    let dt = FP / 100;
    let mut last_conf = m.calib_auto_confid();
    for i in 0..30 {
        m.process(v(100, -100, 50), v(0, 0, FP), dt);
        let conf = m.calib_auto_confid();
        assert!(conf >= last_conf, "confidence fell while steady at frame {i}");
        last_conf = conf;
        if i < 15 {
            assert!(!m.calib_auto_steady(), "steady flipped too early, frame {i}");
        }
    }
    assert!(m.calib_auto_steady(), "no steadiness after a long calm run");
    // One hard-motion frame breaks steadiness and decays confidence.
    m.process(v(500 * FP, 0, 0), v(FP, FP, FP), dt);
    assert!(!m.calib_auto_steady());
    assert!(m.calib_auto_confid() < last_conf);
    // A single calm frame afterwards must not flip it straight back.
    m.process(v(100, -100, 50), v(0, 0, FP), dt);
    assert!(!m.calib_auto_steady());
}

#[test]
fn automatic_mode_learns_bias_while_steady() {
    let mut m = GamepadMotion::new();
    m.calib_mode_set(CalibrationMode::Automatic);
    // A drift below the steadiness threshold, as a real at-rest sensor shows.
    let drift = v(FP / 2, -FP / 4, FP / 8);
    for _ in 0..400 {
        m.process(drift, v(0, 0, FP), FP / 100);
    }
    let (b, _) = m.calib_offset();
    assert!((b.x - drift.x).abs() < 512, "learned bias x: {}", b.x);
    assert!((b.y - drift.y).abs() < 512, "learned bias y: {}", b.y);
    assert!((b.z - drift.z).abs() < 512, "learned bias z: {}", b.z);
}

#[test]
fn confidence_setter_clamps() {
    let mut m = GamepadMotion::new();
    m.calib_auto_confid_set(5 * FP);
    assert_eq!(m.calib_auto_confid(), FP);
    m.calib_auto_confid_set(-3);
    assert_eq!(m.calib_auto_confid(), 0);
    m.calib_auto_confid_set(1234);
    assert_eq!(m.calib_auto_confid(), 1234);
}

#[test]
fn offset_setter_clamps_weight() {
    let mut m = GamepadMotion::new();
    m.calib_offset_set(v(0, 0, 0), 100000);
    assert_eq!(m.calib_offset().1, 256);
}

#[test]
fn player_space_zero_relax_is_pure_local_frame() {
    let mut m = GamepadMotion::new();
    let g = v(3 * FP, -FP, 2 * FP);
    m.calib_offset_set(v(0, 0, 0), 0);
    m.process(g, v(0, 0, FP), FP / 100);
    let (px, py) = m.gyro_player_space(Some(0));
    let cal = m.gyro_calibrated();
    assert_eq!(px, cal.x);
    assert_eq!(py, cal.z);
}

#[test]
fn player_space_varies_continuously_through_the_singular_region() {
    // Sweep gravity from +z through the x axis (the near-singular region for
    // the world-yaw blend) and back; the output may never jump.
    let gyro = v(2 * FP, FP, 3 * FP);
    let mut last: Option<(i64, i64)> = None;
    for i in -60..=60 {
        // gravity = (sin t, 0, cos t), in 1/40 rad steps around the pole.
        let t = (i as f64) / 40.0;
        let gx = (t.sin() * (FP as f64)) as i64;
        let gz = (t.cos() * (FP as f64)) as i64;
        let out = gamepad_motion::aim::player_space(gyro, v(gx, 0, gz), 92406);
        if let Some((lx, ly)) = last {
            assert!((out.0 - lx).abs() <= FP, "pitch jumped at step {i}");
            assert!((out.1 - ly).abs() <= FP, "yaw jumped at step {i}");
        }
        last = Some(out);
    }
}

#[test]
fn world_space_attenuates_near_world_up() {
    let gyro = v(4 * FP, 0, 0);
    // Forward (x) axis exactly at world-up: pitch output is cut to zero.
    let (px, _) = gamepad_motion::aim::world_space(gyro, v(FP, 0, 0), 8192);
    assert_eq!(px, 0);
    // Slightly past the threshold the output comes back, still bounded.
    let (p_mid, _) = gamepad_motion::aim::world_space(gyro, v(FP, 0, 12000), 8192);
    let (p_flat, _) = gamepad_motion::aim::world_space(gyro, v(0, 0, FP), 8192);
    assert!(p_mid.abs() <= p_flat.abs() + FP);
    assert!(p_flat.abs() > 0, "flat orientation should pass pitch through");
}

#[test]
fn world_space_yaw_tracks_gravity_axis() {
    // Lying flat, a pure z rotation is world yaw.
    let (_, yaw) = gamepad_motion::aim::world_space(v(0, 0, 2 * FP), v(0, 0, FP), 8192);
    assert!((yaw - 2 * FP).abs() <= 16, "yaw: {yaw}");
}

#[test]
fn reset_restores_initial_state_and_keeps_mode() {
    let mut m = GamepadMotion::new();
    m.calib_mode_set(CalibrationMode::Continuous);
    m.calib_auto_confid_set(FP / 2);
    for _ in 0..50 {
        m.process(v(30 * FP, -20 * FP, 10 * FP), v(FP / 2, FP / 2, FP / 2), FP / 100);
    }
    m.reset();
    assert_eq!(m.orientation(), Quat { x: 0, y: 0, z: 0, w: FP });
    assert_eq!(m.gravity(), v(0, 0, FP));
    assert_eq!(m.accel_processed(), v(0, 0, 0));
    assert_eq!(m.calib_offset(), (v(0, 0, 0), 0));
    assert_eq!(m.calib_auto_confid(), 0);
    assert!(!m.calib_auto_steady());
    assert_eq!(m.calib_mode(), CalibrationMode::Continuous);
}

#[test]
fn reset_motion_keeps_the_learned_calibration() {
    let mut m = GamepadMotion::new();
    m.calib_offset_set(v(777, -888, 999), 42);
    for _ in 0..50 {
        m.process(v(30 * FP, 0, 0), v(0, 0, FP), FP / 100);
    }
    m.reset_motion();
    assert_eq!(m.orientation(), Quat { x: 0, y: 0, z: 0, w: FP });
    assert_eq!(m.gravity(), v(0, 0, FP));
    assert_eq!(m.accel_processed(), v(0, 0, 0));
    assert_eq!(m.gyro_calibrated(), v(0, 0, 0));
    assert_eq!(m.calib_offset(), (v(777, -888, 999), 42));
}

#[test]
fn non_positive_dt_is_a_no_op() {
    let mut m = GamepadMotion::new();
    for _ in 0..20 {
        m.process(v(10 * FP, -5 * FP, FP), v(0, 0, FP), FP / 100);
    }
    let before = (
        m.orientation(),
        m.gravity(),
        m.accel_processed(),
        m.gyro_calibrated(),
        m.calib_offset(),
        m.calib_auto_confid(),
    );
    m.process(v(99 * FP, 99 * FP, 99 * FP), v(FP, FP, FP), 0);
    m.process(v(99 * FP, 99 * FP, 99 * FP), v(FP, FP, FP), -FP);
    let after = (
        m.orientation(),
        m.gravity(),
        m.accel_processed(),
        m.gyro_calibrated(),
        m.calib_offset(),
        m.calib_auto_confid(),
    );
    assert_eq!(before, after);
}

#[test]
fn zero_accelerometer_leaves_gravity_alone() {
    let mut m = GamepadMotion::new();
    for _ in 0..100 {
        m.process(v(0, 0, 0), v(0, 0, FP), FP / 100);
    }
    let grav = m.gravity();
    m.process(v(0, 0, 0), v(0, 0, 0), FP / 100);
    assert_eq!(m.gravity(), grav, "a degenerate accel frame moved gravity");
}

#[test]
fn rotation_integrates_a_known_turn() {
    // 90 deg/s about z for one second: the quaternion approaches
    // (0, 0, sin 45deg, cos 45deg).
    let mut m = GamepadMotion::new();
    let steps: i64 = 200;
    let dt = FP / steps;
    for _ in 0..steps {
        m.process(v(0, 0, 90 * FP), v(0, 0, FP), dt);
    }
    let q = m.orientation();
    let target = (0.7071 * (FP as f64)) as i64;
    assert!((q.z - target).abs() < FP / 16, "q.z: {} vs {}", q.z, target);
    assert!((q.w - target).abs() < FP / 16, "q.w: {} vs {}", q.w, target);
    assert!(q.x.abs() < FP / 64 && q.y.abs() < FP / 64);
}

#[test]
fn gravity_follows_a_rotated_device() {
    // Settle flat, then pitch the device 90 degrees about x over a second;
    // gravity in the device frame should move from +z toward the y axis.
    let mut m = GamepadMotion::new();
    for _ in 0..300 {
        m.process(v(0, 0, 0), v(0, 0, FP), FP / 100);
    }
    let steps: i64 = 200;
    for _ in 0..steps {
        m.process(v(90 * FP, 0, 0), v(0, 0, 0), FP / steps);
    }
    let grav = m.gravity();
    assert!(grav.y.abs() > FP / 2, "gravity did not follow the rotation: {grav:?}");
}

#[test]
fn extreme_inputs_keep_the_state_sane() {
    // The representable extremes: 4096 units on every axis, 4-second frames.
    let lim: i64 = 4096 * FP;
    let mut m = GamepadMotion::new();
    m.calib_cont_start();
    for i in 0..50 {
        let s = if i % 2 == 0 { 1 } else { -1 };
        m.process(v(s * lim, -s * lim, s * lim), v(s * lim, s * lim, -s * lim), 4 * FP);
        let nsq = norm_sq(m.orientation());
        assert!((nsq - FP_SQ).abs() <= 8 * FP);
        let grav = m.gravity();
        assert!(grav.x.abs() <= 2 * FP && grav.y.abs() <= 2 * FP && grav.z.abs() <= 2 * FP);
    }
}

#[test]
fn gravity_reconverges_after_a_disturbance() {
    // Rotate the device away with no usable accelerometer, then rest it:
    // the estimate must come back to the measured direction, unit length.
    let mut m = GamepadMotion::new();
    for _ in 0..100 {
        m.process(v(90 * FP, 0, 0), v(0, 0, 0), FP / 100);
    }
    assert_ne!(m.gravity(), v(0, 0, FP), "the disturbance should move gravity");
    for _ in 0..600 {
        m.process(v(0, 0, 0), v(0, 0, FP), FP / 100);
    }
    let grav = m.gravity();
    assert!(grav.x.abs() <= 256, "gravity x off: {}", grav.x);
    assert!(grav.y.abs() <= 256, "gravity y off: {}", grav.y);
    assert!((grav.z - FP).abs() <= 256, "gravity z off: {}", grav.z);
    let nsq = grav.x * grav.x + grav.y * grav.y + grav.z * grav.z;
    assert!((nsq - FP_SQ).abs() <= 8 * FP);
}

#[test]
fn detector_standalone_debounces() {
    let mut d = AutoCalibration::new();
    assert!(!d.steady());
    d.reset();
    assert!(!d.steady());
}

#[test]
fn settings_hold_the_documented_defaults() {
    let s = Settings::new();
    assert_eq!(s.yaw_relax_default, 92406);
    assert_eq!(s.side_thresh_default, 8192);
}
