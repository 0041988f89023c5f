//! Platform abstractions, input handling, and display utilities for running
//! Switch-style games inside a host game engine.
//!
//! The library holds the verified core: button mapping tables, the per-tick
//! input aggregation rules, fixed-point stick arithmetic, and the
//! platform/display configuration tables. The host-engine glue (plugin
//! registration, device polling, window updates) lives outside, hands this
//! library plain values, and takes plain values back.
//!
//! Analog axes are carried in integer milli-units: the value 1000 stands for
//! a full deflection of 1.0, and the deadzone of 0.1 is the value 100.

pub mod input;
pub mod platform;
pub mod prelude;
pub mod stick;
pub mod window;
