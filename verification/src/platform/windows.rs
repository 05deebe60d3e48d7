//! Windows: no permission is needed to move the cursor.

use vstd::prelude::*;
use vstd::string::StringExecFns;
use crate::error::KtmmError;

verus! {

/// What a Windows user is told about permissions.
pub const GUIDANCE: &'static str = "Windows typically doesn't require special permissions for mouse control.\nIf you're experiencing issues:\n1. Try running the application as Administrator\n2. Check if any security software is blocking the application\n3. Ensure no other software is capturing mouse input exclusively";

/// Tells whether mouse control is permitted on Windows: always.
pub fn check_accessibility_permissions() -> (outcome: Result<(), KtmmError>)
    ensures
        outcome is Ok,
{
    Ok(())
}

/// What a Windows user is told about permissions.
pub fn get_accessibility_guidance() -> (text: String)
    ensures
        text@ == GUIDANCE@,
{
    String::from_str(GUIDANCE)
}

} // verus!
