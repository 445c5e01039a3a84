//! Reading the desktop session from what the environment says of it.
use vstd::prelude::*;

use crate::text::same_text;

verus! {

/// A Wayland session: `WAYLAND_DISPLAY` is set, or `XDG_SESSION_TYPE` reads
/// exactly `wayland`.
pub fn wayland_session(wayland_display_set: bool, session_type: Option<&str>) -> (b: bool)
    ensures
        b == (wayland_display_set || (session_type matches Some(t) && t@ == "wayland"@)),
{
    if wayland_display_set {
        return true;
    }
    match session_type {
        Some(t) => same_text(t, "wayland"),
        None => false,
    }
}

} // verus!
