//! Core logic of a word-clock: a calendar time model kept in sync with a
//! radio time signal and a battery-backed real-time clock, rendered as
//! illuminated words on a row-multiplexed LED matrix.
//!
//! Everything here is pure logic on plain values. The hardware edges
//! (pin drivers, the I2C bus to the clock chip, interrupt registration)
//! live outside; interrupt handlers and the main loop call into the
//! state-transition functions of this crate.

pub mod buttons;
pub mod channel;
pub mod display;
pub mod radio;
pub mod sync;
pub mod time;
