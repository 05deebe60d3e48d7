//! The permission probe, one variant per platform family.
//!
//! The family is a value that the program picks once, at start, so the rules
//! of every family can be read and checked on any machine.

pub mod linux;
pub mod macos;
pub mod unsupported;
pub mod windows;

use vstd::prelude::*;
use crate::error::{ErrorView, KtmmError};

verus! {

/// The platform families that the probe tells apart.
#[derive(Debug, Clone, Copy, PartialEq, Eq, Structural)]
pub enum Platform {
    MacOs,
    Windows,
    Linux,
    /// Any other system.
    Unsupported,
}

/// The answer of the probe: `None` where mouse control is permitted, else the
/// error. The Wayland indicator counts on Linux only.
pub open spec fn permission_failure(platform: Platform, wayland_display_present: bool) -> Option<
    ErrorView,
> {
    match platform {
        Platform::MacOs => None,
        Platform::Windows => None,
        Platform::Linux => if wayland_display_present {
            Some(ErrorView::Platform(linux::WAYLAND_RESTRICTION@))
        } else {
            None
        },
        Platform::Unsupported => Some(ErrorView::UnsupportedPlatform),
    }
}

/// What the user of a platform is told about permissions.
pub open spec fn guidance_text(platform: Platform) -> Seq<char> {
    match platform {
        Platform::MacOs => macos::GUIDANCE@,
        Platform::Windows => windows::GUIDANCE@,
        Platform::Linux => linux::GUIDANCE@,
        Platform::Unsupported => unsupported::GUIDANCE@,
    }
}

/// The error of a probe's answer, by its view.
pub open spec fn failure_of(outcome: Result<(), KtmmError>) -> Option<ErrorView> {
    match outcome {
        Ok(_) => None,
        Err(e) => Some(e@),
    }
}

/// Tells whether this process may control the mouse on the given platform.
///
/// `wayland_display_present` says whether the environment names a Wayland
/// display; it is read on Linux only. The probe asks nothing of the system
/// and changes nothing.
pub fn check_accessibility_permissions(
    platform: Platform,
    wayland_display_present: bool,
) -> (outcome: Result<(), KtmmError>)
    ensures
        failure_of(outcome) == permission_failure(platform, wayland_display_present),
{
    match platform {
        Platform::MacOs => macos::check_accessibility_permissions(),
        Platform::Windows => windows::check_accessibility_permissions(),
        Platform::Linux => linux::check_accessibility_permissions(wayland_display_present),
        Platform::Unsupported => unsupported::check_accessibility_permissions(),
    }
}

/// What the user of a platform is told when the probe fails.
pub fn get_accessibility_guidance(platform: Platform) -> (text: String)
    ensures
        text@ == guidance_text(platform),
{
    match platform {
        Platform::MacOs => macos::get_accessibility_guidance(),
        Platform::Windows => windows::get_accessibility_guidance(),
        Platform::Linux => linux::get_accessibility_guidance(),
        Platform::Unsupported => unsupported::get_accessibility_guidance(),
    }
}

} // verus!
