//! Every platform that is neither Windows, macOS nor Linux.

use vstd::prelude::*;
use vstd::string::StringExecFns;
use crate::error::{ErrorView, KtmmError};

verus! {

/// What a user of an unsupported platform is told.
pub const GUIDANCE: &'static str = "Your platform is not officially supported by KTMM.\n\nKTMM is designed to work on:\n- Windows\n- macOS\n- Linux (X11)\n\nWhile the application may still function on your platform,\nwe cannot guarantee full compatibility or provide specific guidance.\n\nIf you encounter issues, please report them on our GitHub repository\nwith details about your operating system and environment.";

/// Tells whether mouse control is permitted on an unsupported platform:
/// never.
pub fn check_accessibility_permissions() -> (outcome: Result<(), KtmmError>)
    ensures
        outcome is Err,
        outcome->Err_0@ == ErrorView::UnsupportedPlatform,
{
    Err(KtmmError::UnsupportedPlatform)
}

/// What a user of an unsupported platform is told.
pub fn get_accessibility_guidance() -> (text: String)
    ensures
        text@ == GUIDANCE@,
{
    String::from_str(GUIDANCE)
}

} // verus!
