//! Linux: the X11 display server lets a process move the cursor, Wayland may
//! not.

use vstd::prelude::*;
use vstd::string::StringExecFns;
use crate::error::{ErrorView, KtmmError};

verus! {

/// The text of the error that is returned under Wayland.
pub const WAYLAND_RESTRICTION: &'static str = "Running under Wayland, which may restrict mouse control";

/// What a Linux user is told about permissions.
pub const GUIDANCE: &'static str = "Linux permissions for mouse control depend on your display server:\n\nFor X11 (most common):\n- No special permissions are typically needed\n- If using a security-enhanced setup, check X11 access controls\n\nFor Wayland:\n- Mouse control may be restricted by design\n- Consider using X11 instead for this application\n- Some compositors may provide accessibility APIs\n\nIf running in a virtual machine or remote desktop:\n- Ensure the host system allows mouse control";

/// Tells whether mouse control is permitted on Linux.
///
/// `wayland_display_present` says whether the environment names a Wayland
/// display (`WAYLAND_DISPLAY` is set, to whatever value). This is a
/// heuristic: a session may run under Wayland and still allow mouse control,
/// or forbid it without the variable. Nothing is asked of the system and
/// nothing is changed.
pub fn check_accessibility_permissions(wayland_display_present: bool) -> (outcome: Result<
    (),
    KtmmError,
>)
    ensures
        !wayland_display_present ==> outcome is Ok,
        wayland_display_present ==> outcome is Err && outcome->Err_0@ == ErrorView::Platform(
            WAYLAND_RESTRICTION@,
        ),
{
    if wayland_display_present {
        return Err(KtmmError::PlatformError(String::from_str(WAYLAND_RESTRICTION)));
    }
    Ok(())
}

/// What a Linux user is told about permissions.
pub fn get_accessibility_guidance() -> (text: String)
    ensures
        text@ == GUIDANCE@,
{
    String::from_str(GUIDANCE)
}

} // verus!
