//! Reporting layer of an embedded-firmware toolchain: which build target a
//! project is configured for, and which debug probes and log channels work
//! with each known device.

pub mod cmd;
pub mod color;
pub mod device;
pub mod matrix;
pub mod probe;
pub mod resolver;
pub mod table;
pub mod target;
