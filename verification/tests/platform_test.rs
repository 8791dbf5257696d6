use busycrab::platform::Platform;
use busycrab::platform::PlatformTrait;

#[test]
fn test_platform_creation() {
    // Test that a Platform instance can be created
    let _platform = Platform::new();

    // Just verify that the platform can be created without errors
    // The actual functionality is platform-specific and harder to test
    assert!(true);
}

#[test]
fn test_platform_sleep_prevention() {
    // This is a basic integration test that just verifies the function runs
    // We can't easily test actual sleep prevention in an automated test
    let platform = Platform::new();

    // The result may vary by platform, but the function should execute
    let result = platform.prevent_sleep();

    // We just verify that the function returned something, not necessarily success
    // This is because on some platforms (e.g., Linux) it may return an error
    assert!(result.is_ok() || result.is_err());
}

#[test]
fn test_fallback_platform_reports_unavailable() {
    // The portable fallback platform always reports that sleep prevention
    // is unavailable.
    let platform = Platform::new();
    assert!(platform.prevent_sleep().is_err());
}
