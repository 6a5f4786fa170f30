use traybattery::hidpp::battery::{decipher_battery_unified, BatteryStatus};

#[test]
fn test_decipher_battery_unified() {
    // 85% battery, not charging
    let response = [85, 50, 0x00];
    let battery_info = decipher_battery_unified(&response).unwrap();

    assert_eq!(battery_info.percentage, 85);
    assert_eq!(battery_info.charging, false);
    assert_eq!(battery_info.status, BatteryStatus::Discharging);
}

#[test]
fn test_decipher_battery_charging() {
    // 60% battery, charging slow
    let response = [60, 30, 0x01];
    let battery_info = decipher_battery_unified(&response).unwrap();

    assert_eq!(battery_info.percentage, 60);
    assert_eq!(battery_info.charging, true);
    assert_eq!(battery_info.status, BatteryStatus::ChargingSlow);
}

#[test]
fn test_decipher_battery_error() {
    // Error state: filtered out
    let response = [0, 0, 0x05];
    let result = decipher_battery_unified(&response);

    assert!(result.is_none());
}

#[test]
fn test_empty_response_handling() {
    let response: [u8; 0] = [];
    assert!(decipher_battery_unified(&response).is_none());
}

#[test]
fn test_short_response_handling() {
    // Only 2 bytes
    let response = [85, 50];
    assert!(decipher_battery_unified(&response).is_none());
}

#[test]
fn test_device_error_handling() {
    // Documents that a device without battery reporting is an expected
    // condition; the session tests cover the actual fallback.
    assert!(true);
}
