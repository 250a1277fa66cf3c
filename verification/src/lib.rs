//! Charge control for UFCS chargers: the profile, the sysfs record parsers,
//! the current ramp and taper rules, the battery display lock and the
//! per-sample charge session state machine.

pub mod battery;
pub mod battery_display;
pub mod config;
pub mod emul_temp;
pub mod laws;
pub mod looper;
pub mod mask;
pub mod ramp_up;
pub mod taper;
pub mod text;
