//! Sensor fusion and calibration engine for handheld game-controller motion.
//!
//! Raw 3-axis gyroscope and accelerometer samples are folded, frame by frame,
//! into a drift-corrected orientation quaternion, a gravity estimate, a
//! linear-acceleration estimate and a running gyroscope bias, and mapped to
//! two 2D "aim" angular-velocity outputs (player space and world space).
//!
//! All quantities are fixed-point: a value of [`fx::FP`] stands for 1.0.
//! Angular rates are degrees per second, accelerations are in units of
//! standard gravity, and frame durations are in seconds, all scaled by
//! [`fx::FP`].

pub mod fx;
pub mod vec3;
pub mod quat;
pub mod calib;
pub mod autocal;
pub mod aim;
pub mod engine;

pub use crate::vec3::Vec3;
pub use crate::quat::Quat;
pub use crate::calib::CalibrationMode;
pub use crate::calib::CalibrationOffset;
pub use crate::autocal::AutoCalibration;
pub use crate::engine::GamepadMotion;
pub use crate::engine::Settings;
