//! Verified core of a timed single-camera capture pipeline.
//!
//! The library covers the logic of an unattended motion-monitoring capture
//! session: the ordered hardware bring-up sequence, the periodic
//! capture-and-persist loop, frame assembly from delivered chunks, and the
//! decode / normalize / re-encode step that prepares each frame for disk.
//! Hardware access, file writes and command-line glue live outside the
//! library and hand it plain values.

pub mod acquire;
pub mod bringup;
pub mod persist;
pub mod session;
pub mod settings;
pub mod timefmt;
pub mod utils;
