# pynput

Control and monitor input devices: the mouse and the keyboard.

The crate in `src/` is the verified core, written in Verus: key descriptions
and their tables for *X11*, *uinput*/*evdev*, *Windows* and *macOS*, dead key
composition, hotkey parsing and state, the keyboard and mouse controllers, and
the decisions of the platform backends and listeners (which events to send,
what a recorded or hooked event means). Each controller records the calls it
makes of its backend in a ghost log, and its contracts say exactly which calls
are made for every sequence of replies.

`app/` holds what talks to the system: the *X11* connection and its RECORD
listener, the *uinput* devices, the *Windows* hooks and `SendInput`, the
*macOS* event taps, the listener threads, and the reading of the environment
that chooses a backend. `tests/` exercises the library with recording
backends and checks its tables against the platform crates.
