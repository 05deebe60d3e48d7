//! macOS: moving the cursor needs the accessibility permission, which this
//! library cannot query; it reports success and leaves the refusal to the
//! system.

use vstd::prelude::*;
use vstd::string::StringExecFns;
use crate::error::KtmmError;

verus! {

/// How a macOS user grants the accessibility permission.
pub const GUIDANCE: &'static str = "To enable accessibility permissions on macOS:\n1. Open System Preferences\n2. Go to Security & Privacy\n3. Select the Privacy tab\n4. Select Accessibility from the left sidebar\n5. Click the lock icon to make changes\n6. Check the box next to this application\n7. Restart the application";

/// Tells whether mouse control is permitted on macOS: always.
pub fn check_accessibility_permissions() -> (outcome: Result<(), KtmmError>)
    ensures
        outcome is Ok,
{
    Ok(())
}

/// How a macOS user grants the accessibility permission.
pub fn get_accessibility_guidance() -> (text: String)
    ensures
        text@ == GUIDANCE@,
{
    String::from_str(GUIDANCE)
}

} // verus!
