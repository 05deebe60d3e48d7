use ktmm::KtmmError;

#[test]
fn message_of_each_error() {
    assert_eq!(
        KtmmError::MouseControlError("no display".to_string()).message(),
        "Mouse control error: no display"
    );
    assert_eq!(
        KtmmError::PlatformError("Running under Wayland".to_string()).message(),
        "Platform error: Running under Wayland"
    );
    assert_eq!(
        KtmmError::AccessibilityPermissionError.message(),
        "macOS accessibility permission not granted"
    );
    assert_eq!(
        KtmmError::UnsupportedPlatform.message(),
        "Platform error: This platform is not officially supported by KTMM"
    );
    assert_eq!(KtmmError::Other("boom".to_string()).message(), "Error: boom");
}

#[test]
fn message_with_empty_text() {
    assert_eq!(KtmmError::MouseControlError(String::new()).message(), "Mouse control error: ");
    assert_eq!(KtmmError::PlatformError(String::new()).message(), "Platform error: ");
    assert_eq!(KtmmError::Other(String::new()).message(), "Error: ");
}
