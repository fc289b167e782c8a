//! Adaptive performance governor for a frame-driven renderer.
//!
//! The host loop measures how long each frame took and hands that duration to
//! the frame timing monitor. The governor reads the monitor's smoothed signals
//! and moves a discrete quality level by at most one step per frame, with
//! hysteresis and cooldown so that the level settles instead of flapping.
//!
//! Everything is integer arithmetic: durations are whole microseconds and
//! frame rates are millionths of a frame per second.

pub mod performance;
pub mod platform;
pub mod routes;

pub use performance::governor::{advance_frame, auto_adjust_quality};
pub use performance::level::{QualityChanged, QualityLevel};
pub use performance::monitor::{update_fps, FpsMonitor};
pub use performance::settings::QualitySettings;
pub use platform::{Os, Platform};
pub use routes::{mode_from_args, mode_from_location, AppMode};
