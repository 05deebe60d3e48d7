use ktmm::MouseMoverConfig;

#[test]
fn test_config_default() {
    let config = MouseMoverConfig::default();
    assert_eq!(config.interval_secs, 60);
    assert_eq!(config.movement_pixels, (1, 1));
    assert_eq!(config.return_delay_ms, 6);
}

#[test]
fn lib_test_custom_config() {
    let config = MouseMoverConfig {
        interval_secs: 30,
        movement_pixels: (2, 3),
        return_delay_ms: 10,
    };

    assert_eq!(config.interval_secs, 30);
    assert_eq!(config.movement_pixels, (2, 3));
    assert_eq!(config.return_delay_ms, 10);
}
