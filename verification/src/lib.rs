//! Control and monitor input devices: the mouse and the keyboard.
//!
//! This crate holds the platform independent part of the library: key
//! descriptions, hotkey parsing and state, the keyboard and mouse controller
//! logic, and the key tables of the platform backends. The backends
//! themselves perform I/O and live outside this crate.

pub mod keyboard;
pub mod mouse;
pub mod util;

pub use util::Error;
