//! Utilities shared by the keyboard and mouse modules, and the error type.

pub mod text;
pub mod xorg;

use vstd::prelude::*;

use self::text::{char_debug, concat, decimal, owned};

verus! {

/// The error type used throughout the crate.
#[derive(Debug)]
pub enum Error {
    /// An invalid key was passed to `press` or `release`.
    InvalidKey(String),
    /// An invalid character was encountered in the string passed to
    /// `type_str`: its index in the string and the character.
    InvalidCharacter(usize, char),
    /// A string that should describe a key or a hotkey could not be parsed.
    InvalidString(String),
    /// A platform backend failed to initialise or perform an operation.
    Backend(String),
    /// The current platform is not supported.
    Unsupported(String),
}

/// The human readable message of an error.
pub open spec fn error_message(e: Error) -> Seq<char> {
    match e {
        Error::InvalidKey(k) => "invalid key: "@ + k@,
        Error::InvalidCharacter(i, c) => "invalid character "@ + text::char_debug_text(c)
            + " at index "@ + text::decimal_text(i as nat),
        Error::InvalidString(s) => "invalid string: "@ + s@,
        Error::Backend(s) => "backend error: "@ + s@,
        Error::Unsupported(s) => "unsupported platform: "@ + s@,
    }
}

impl Error {
    /// The human readable message of this error.
    pub fn message(&self) -> (m: String)
        ensures
            m@ == error_message(*self),
    {
        match self {
            Error::InvalidKey(k) => concat(owned("invalid key: "), k.as_str()),
            Error::InvalidCharacter(i, c) => {
                let head = concat(owned("invalid character "), char_debug(*c).as_str());
                let head = concat(head, " at index ");
                concat(head, decimal(*i as u64).as_str())
            },
            Error::InvalidString(s) => concat(owned("invalid string: "), s.as_str()),
            Error::Backend(s) => concat(owned("backend error: "), s.as_str()),
            Error::Unsupported(s) => concat(owned("unsupported platform: "), s.as_str()),
        }
    }
}

/// The backend pick: the kind-specific choice when it is set, else the
/// general one.
pub open spec fn backend_pick(kind_pick: Option<Seq<char>>, pick: Option<Seq<char>>) -> Option<
    Seq<char>,
> {
    match kind_pick {
        Some(p) => Some(p),
        None => pick,
    }
}

/// Whether the *uinput*/*evdev* backend is chosen on Linux: as picked
/// (`uinput` or `xorg`), and otherwise on a *Wayland* session, that is when
/// `WAYLAND_DISPLAY` is set and not empty or `XDG_SESSION_TYPE` is `wayland`.
pub open spec fn uinput_chosen(
    kind_pick: Option<Seq<char>>,
    pick: Option<Seq<char>>,
    wayland_display: Option<Seq<char>>,
    session_type: Option<Seq<char>>,
) -> bool {
    let chosen = backend_pick(kind_pick, pick);
    if chosen == Some("uinput"@) {
        true
    } else if chosen == Some("xorg"@) {
        false
    } else {
        (wayland_display matches Some(d) && d.len() > 0) || session_type == Some("wayland"@)
    }
}

/// The characters of an optional string.
pub open spec fn opt_view(s: Option<&str>) -> Option<Seq<char>> {
    match s {
        Some(v) => Some(v@),
        None => None,
    }
}

/// Decides whether the *uinput*/*evdev* backend should be used on Linux,
/// from the values of `PYNPUT_BACKEND_<KIND>`, `PYNPUT_BACKEND`,
/// `WAYLAND_DISPLAY` and `XDG_SESSION_TYPE` (`None` when unset).
pub fn use_uinput(
    kind_pick: Option<&str>,
    pick: Option<&str>,
    wayland_display: Option<&str>,
    session_type: Option<&str>,
) -> (uinput: bool)
    ensures
        uinput == uinput_chosen(
            opt_view(kind_pick),
            opt_view(pick),
            opt_view(wayland_display),
            opt_view(session_type),
        ),
{
    proof {
        reveal_strlit("");
    }
    let chosen = match kind_pick {
        Some(p) => Some(p),
        None => pick,
    };
    assert(opt_view(chosen) == backend_pick(opt_view(kind_pick), opt_view(pick)));
    if let Some(p) = chosen {
        if text::str_eq(p, "uinput") {
            return true;
        }
        if text::str_eq(p, "xorg") {
            return false;
        }
    }
    let on_wayland_display = match wayland_display {
        Some(d) => {
            proof {
                if d@.len() == 0 {
                    assert(d@ =~= ""@);
                }
            }
            !text::str_eq(d, "")
        },
        None => false,
    };
    let on_wayland_session = match session_type {
        Some(t) => text::str_eq(t, "wayland"),
        None => false,
    };
    on_wayland_display || on_wayland_session
}

} // verus!
