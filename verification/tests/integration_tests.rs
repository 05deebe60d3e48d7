use ktmm::platform::Platform;
use ktmm::{MouseMover, MouseMoverConfig};

// The default configuration is set correctly.
#[test]
fn test_default_config() {
    let config = MouseMoverConfig::default();
    assert_eq!(config.interval_secs, 60);
    assert_eq!(config.movement_pixels, (1, 1));
    assert_eq!(config.return_delay_ms, 6);
}

// A custom configuration is kept as it was given, by itself and by the mover
// that is made with it.
#[test]
fn integration_tests_test_custom_config() {
    let config = MouseMoverConfig {
        interval_secs: 30,
        movement_pixels: (2, 3),
        return_delay_ms: 10,
    };

    assert_eq!(config.interval_secs, 30);
    assert_eq!(config.movement_pixels, (2, 3));
    assert_eq!(config.return_delay_ms, 10);

    let mover = MouseMover::new(config.clone());
    assert_eq!(mover.config.interval_secs, config.interval_secs);
    assert_eq!(mover.config.movement_pixels, config.movement_pixels);
    assert_eq!(mover.config.return_delay_ms, config.return_delay_ms);
}

// Permissions are granted on a Linux session that runs under X11.
#[test]
fn test_permissions() {
    let mover = MouseMover::default();
    let result = mover.check_permissions(Platform::Linux, false);
    assert!(result.is_ok());
}

#[test]
fn integration_tests_test_mock_mouse_movement() {
    assert!(true);
}
