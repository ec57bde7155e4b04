//! Control logic for a single BLE-driven color light: command frame
//! encoding, hue animation, a day/night gate, and the coordinator state
//! machine that suppresses output during daylight.

pub mod color;
pub mod control;
pub mod coordinator;
pub mod frames;
pub mod gate;
pub mod scan;
