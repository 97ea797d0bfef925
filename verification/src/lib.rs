//! The decision core of a serial console that can push a boot image to the
//! attached device before it starts relaying bytes.
//!
//! Nothing in this crate touches a device, a terminal or a file. Every
//! function maps plain values to plain values; the program around it performs
//! the reads and writes that the functions ask for and reports back what
//! happened.

pub mod banner;
pub mod baud;
pub mod bridge;
pub mod laws;
pub mod line;
pub mod outcome;
pub mod ready;
pub mod terminal;
pub mod wire;
