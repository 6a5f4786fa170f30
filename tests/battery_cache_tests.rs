use traybattery::hidpp::battery::{BatteryInfo, BatteryStatus};
use traybattery::hidpp::device::{Action, LogitechDevice, Outcome};

const BATTERY_INDEX: u8 = 0x06;

/// A session whose battery feature was found at `BATTERY_INDEX`.
fn enabled_device() -> LogitechDevice {
    let mut device = LogitechDevice::new();
    assert!(matches!(device.enable_battery_notifications(), Action::Exchange(_)));
    let action = device.on_response(Some(vec![0x11, 0x01, 0x00, 0x00, BATTERY_INDEX, 0x00, 0x01]), 1);
    assert!(matches!(action, Action::Exchange(_)));
    let action = device.on_response(Some(vec![0x11, 0x01, BATTERY_INDEX, 0x10, 80, 30, 0x00]), 2);
    assert_eq!(action, Action::Done(Outcome::NotificationsEnabled));
    device
}

/// Feeds a unified battery payload to the session as a battery event frame.
fn simulate_battery_response(device: &mut LogitechDevice, payload: &[u8]) -> Option<BatteryInfo> {
    let mut frame = vec![0x11, 0x01, BATTERY_INDEX, 0x00];
    frame.extend_from_slice(payload);
    device.listen_for_battery_events(&frame, 10)
}

fn cached_value(device: &LogitechDevice) -> Option<BatteryInfo> {
    device.get_last_valid_battery().cloned()
}

#[test]
fn test_cache_stores_valid_battery() {
    let mut device = enabled_device();

    // 47% discharging
    let battery_info = simulate_battery_response(&mut device, &[47, 30, 0x00]);

    assert!(battery_info.is_some(), "Should return valid battery info");
    assert_eq!(battery_info.as_ref().unwrap().percentage, 47);

    let cached_battery = cached_value(&device);
    assert!(cached_battery.is_some(), "Cache should be populated");
    assert_eq!(cached_battery.unwrap().percentage, 47);
}

#[test]
fn test_cache_not_updated_on_garbage() {
    let mut device = enabled_device();

    // Fill the cache with 47%
    simulate_battery_response(&mut device, &[47, 30, 0x00]);

    let initial_cached = cached_value(&device);
    assert!(initial_cached.is_some(), "Initial cache should be populated");
    assert_eq!(initial_cached.unwrap().percentage, 47);

    // Garbage: 255%
    let garbage_result = simulate_battery_response(&mut device, &[255, 255, 0xFF]);

    assert!(garbage_result.is_none(), "Garbage should not return valid battery");

    let final_cached = cached_value(&device);
    assert!(final_cached.is_some(), "Cache should still be populated");
    assert_eq!(final_cached.unwrap().percentage, 47, "Cache should not update on garbage");
}

#[test]
fn test_cache_not_updated_on_invalid_change() {
    let mut device = enabled_device();

    let initial_battery = BatteryInfo {
        percentage: 50,
        charging: false,
        next_level: 0,
        status: BatteryStatus::Discharging,
    };

    device.set_last_valid_battery(initial_battery);

    // 50% -> 10%: a large jump
    let suspicious_result = simulate_battery_response(&mut device, &[10, 0, 0x00]);

    assert!(suspicious_result.is_none(), "Suspicious change should not return valid battery");

    let cached = cached_value(&device);
    assert!(cached.is_some(), "Cache should still be populated");
    assert_eq!(cached.unwrap().percentage, 50, "Cache should not update on suspicious change");
}

#[test]
fn test_battery_change_validation_logic() {
    let mut device = enabled_device();

    let initial_battery = BatteryInfo {
        percentage: 50,
        charging: false,
        next_level: 0,
        status: BatteryStatus::Discharging,
    };

    device.set_last_valid_battery(initial_battery.clone());

    // 50% -> 49%
    let normal_result = simulate_battery_response(&mut device, &[49, 30, 0x00]);
    assert!(normal_result.is_some(), "Normal discharge should be valid");

    device.set_last_valid_battery(initial_battery.clone());

    // 50% -> 10%
    let suspicious_result = simulate_battery_response(&mut device, &[10, 0, 0x00]);
    assert!(suspicious_result.is_none(), "Large jump should be invalid");

    device.set_last_valid_battery(initial_battery.clone());

    // 50% -> 1% charging fast
    let suspicious_charging_result = simulate_battery_response(&mut device, &[1, 0, 0x02]);
    assert!(suspicious_charging_result.is_none(), "Very low charging should be invalid");
}

#[test]
fn repeated_garbage_keeps_last_reading() {
    let mut device = enabled_device();
    assert_eq!(simulate_battery_response(&mut device, &[47, 30, 0x00]).map(|b| b.percentage), Some(47));
    let stamp = device.last_update_time();
    for _ in 0..5 {
        assert!(simulate_battery_response(&mut device, &[255, 255, 0xFF]).is_none());
    }
    assert_eq!(cached_value(&device).map(|b| b.percentage), Some(47));
    assert_eq!(device.last_update_time(), stamp);
}

#[test]
fn event_path_bound_and_charging_exception() {
    let mut device = enabled_device();
    device.set_last_valid_battery(BatteryInfo {
        percentage: 50,
        charging: false,
        next_level: 0,
        status: BatteryStatus::Discharging,
    });
    // 11 points down without charging: rejected on the event path.
    assert!(simulate_battery_response(&mut device, &[39, 0, 0x00]).is_none());
    // 10 points down: accepted.
    assert_eq!(simulate_battery_response(&mut device, &[40, 0, 0x00]).map(|b| b.percentage), Some(40));
    // 30 points up while charging: accepted.
    assert_eq!(
        simulate_battery_response(&mut device, &[70, 0, 0x02]).map(|b| b.status),
        Some(BatteryStatus::ChargingFast)
    );
}
