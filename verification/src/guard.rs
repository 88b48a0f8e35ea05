use vstd::prelude::*;
use crate::text::{ascii_lowercase, eq_ignore_ascii_case};

verus! {

/// How the keyboard guard ends up protecting a Linux session.
#[derive(Debug, Clone, Copy, PartialEq, Eq, Structural)]
pub enum LinuxGuard {
    /// The evdev backend grabbed at least one keyboard.
    EvdevActive,
    /// evdev failed on Wayland, where X11 grabs do not work: keys are not blocked.
    Unprotected,
    /// evdev failed on X11: fall back to X11 key grabs.
    X11Grabs,
}

/// The session type that marks a Wayland session.
pub open spec fn wayland_name() -> Seq<char> {
    seq!['w', 'a', 'y', 'l', 'a', 'n', 'd']
}

/// A session is Wayland when `XDG_SESSION_TYPE` is `wayland` in any ASCII
/// case, or when `WAYLAND_DISPLAY` is set.
pub fn is_wayland_session(session_type: &str, wayland_display_set: bool) -> (r: bool)
    ensures
        r == (ascii_lowercase(session_type@) == wayland_name() || wayland_display_set),
{
    proof {
        reveal_strlit("wayland");
        assert(ascii_lowercase("wayland"@) =~= wayland_name());
    }
    eq_ignore_ascii_case(session_type, "wayland") || wayland_display_set
}

/// The backend that guards a Linux session once the evdev backend has been
/// tried: evdev when it grabbed a keyboard, else X11 grabs, except on Wayland,
/// where nothing can be done.
pub fn after_evdev_attempt(evdev_active: bool, wayland: bool) -> (r: LinuxGuard)
    ensures
        evdev_active ==> r == LinuxGuard::EvdevActive,
        !evdev_active && wayland ==> r == LinuxGuard::Unprotected,
        !evdev_active && !wayland ==> r == LinuxGuard::X11Grabs,
{
    if evdev_active {
        LinuxGuard::EvdevActive
    } else if wayland {
        LinuxGuard::Unprotected
    } else {
        LinuxGuard::X11Grabs
    }
}

} // verus!
