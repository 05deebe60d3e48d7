//! What can go wrong, and how it is told to the user.

use vstd::prelude::*;
use vstd::string::StringExecFns;

verus! {

/// The failures of the mouse mover.
#[derive(Debug)]
pub enum KtmmError {
    /// The cursor could not be read or moved.
    MouseControlError(String),
    /// The platform does not let this process control the mouse.
    PlatformError(String),
    /// The accessibility permission that macOS asks for was not granted.
    AccessibilityPermissionError,
    /// The platform is none of the supported families.
    UnsupportedPlatform,
    /// Anything else.
    Other(String),
}

/// A `KtmmError` with its text as a sequence of characters.
pub enum ErrorView {
    MouseControl(Seq<char>),
    Platform(Seq<char>),
    AccessibilityPermission,
    UnsupportedPlatform,
    Other(Seq<char>),
}

impl View for KtmmError {
    type V = ErrorView;

    open spec fn view(&self) -> ErrorView {
        match self {
            KtmmError::MouseControlError(msg) => ErrorView::MouseControl(msg@),
            KtmmError::PlatformError(msg) => ErrorView::Platform(msg@),
            KtmmError::AccessibilityPermissionError => ErrorView::AccessibilityPermission,
            KtmmError::UnsupportedPlatform => ErrorView::UnsupportedPlatform,
            KtmmError::Other(msg) => ErrorView::Other(msg@),
        }
    }
}

impl ErrorView {
    /// The line shown to the user for this error.
    pub open spec fn message(self) -> Seq<char> {
        match self {
            ErrorView::MouseControl(msg) => "Mouse control error: "@ + msg,
            ErrorView::Platform(msg) => "Platform error: "@ + msg,
            ErrorView::AccessibilityPermission => "macOS accessibility permission not granted"@,
            ErrorView::UnsupportedPlatform => "Platform error: This platform is not officially supported by KTMM"@,
            ErrorView::Other(msg) => "Error: "@ + msg,
        }
    }
}

impl KtmmError {
    /// The line shown to the user for this error: the kind of failure, then
    /// the text that the error carries.
    pub fn message(&self) -> (text: String)
        ensures
            text@ == self@.message(),
    {
        match self {
            KtmmError::MouseControlError(msg) => String::from_str("Mouse control error: ").concat(
                msg.as_str(),
            ),
            KtmmError::PlatformError(msg) => String::from_str("Platform error: ").concat(
                msg.as_str(),
            ),
            KtmmError::AccessibilityPermissionError => String::from_str(
                "macOS accessibility permission not granted",
            ),
            KtmmError::UnsupportedPlatform => String::from_str(
                "Platform error: This platform is not officially supported by KTMM",
            ),
            KtmmError::Other(msg) => String::from_str("Error: ").concat(msg.as_str()),
        }
    }
}

} // verus!
