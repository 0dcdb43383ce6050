//! Verified core of an HDMI hot-plug-detect (HPD) controller.
//!
//! The library owns the logic of the system: the HPD state machine that
//! drives the detect line through timed assert/deassert/pulse/reconnect
//! sequences, the bounded command queue that serializes concurrent
//! requests into one execution stream, and the button classifier that
//! turns debounced press durations into commands. The surrounding
//! binary performs the pin writes and the timed suspensions that the
//! library's results call for.

pub mod timing;
pub mod hpd;
pub mod button;
pub mod channel;
pub mod dispatch;
