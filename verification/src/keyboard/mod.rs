//! Keyboard keys, key codes and the keyboard controller.

pub mod key;
pub mod keycode;
pub mod canonical;
pub mod controller;
pub mod hotkey;
pub mod input;
pub mod keysyms;
pub mod darwin;
pub mod dummy;
pub mod uinput;
pub mod win32;
pub mod xorg;

pub use key::Key;
pub use canonical::{canonical, KeyboardBackend};
pub use controller::{Controller, KeyboardImpl};
pub use hotkey::{GlobalHotKeys, HotKey};
pub use input::{KeyInput, Pressable};
pub use keycode::KeyCode;
