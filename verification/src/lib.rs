//! Hardware-abstraction core for periodic embedded firmware.
//!
//! The crate has three layers:
//! - capability interfaces for a digital output pin ([`gpio::OutputPin`])
//!   and a byte-oriented bus ([`i2c::I2cBus`]), with their error taxonomy
//!   in [`error`]: one leaf error kind per peripheral family and one
//!   composite kind that wraps exactly one leaf, losslessly;
//! - a backend-agnostic application core ([`app::App`]) that owns one pin
//!   and one bus capability and advances a fixed dual-period schedule by
//!   one tick per call, proved against the abstract model in [`schedule`];
//! - simulated backends ([`mock_hal`]) that implement the capabilities in
//!   plain memory, for desktop runs and tests.
//!
//! The core has no notion of wall-clock time: the caller's driver loop
//! decides how often a tick happens and what to do when one fails.

pub mod app;
pub mod error;
pub mod gpio;
pub mod i2c;
pub mod mock_hal;
pub mod schedule;
