use traybattery::hidpp::device::{Action, LogitechDevice, Outcome};

/// A session whose battery feature was found at `feature_index` on device 0x01.
fn enabled_device(feature_index: u8) -> LogitechDevice {
    let mut device = LogitechDevice::new();
    let action = device.enable_battery_notifications();
    assert!(matches!(action, Action::Exchange(_)));
    let action = device.on_response(Some(vec![0x11, 0x01, 0x00, 0x00, feature_index, 0x00, 0x01]), 1);
    assert!(matches!(action, Action::Exchange(_)));
    let action = device.on_response(Some(vec![0x11, 0x01, feature_index, 0x10, 80, 30, 0x00]), 2);
    assert_eq!(action, Action::Done(Outcome::NotificationsEnabled));
    device
}

#[test]
fn test_accept_only_battery_feature_index() {
    // Only frames from the battery feature index are taken as battery
    // events.
    let mut device = enabled_device(0x06);
    assert_eq!(device.get_battery_feature_index(), Some(0x06));

    let other = [0x11, 0x01, 0x04, 0x00, 47, 30, 0x00];
    assert!(device.listen_for_battery_events(&other, 3).is_none());

    let battery = [0x11, 0x01, 0x06, 0x00, 79, 30, 0x00];
    assert_eq!(device.listen_for_battery_events(&battery, 4).map(|b| b.percentage), Some(79));
}

#[test]
fn test_filter_non_battery_events() {
    // A report from a non-battery feature (index 0x04)
    let wireless_event = vec![0x11, 0x01, 0x04, 0x00, 0x00, 0x00, 0x00];

    let msg_feature_idx = wireless_event[2];
    let battery_feature_idx = 0x06u8;

    assert_ne!(msg_feature_idx, battery_feature_idx, "Non-battery event should have different feature index");

    let mut device = enabled_device(battery_feature_idx);
    assert!(device.listen_for_battery_events(&wireless_event, 3).is_none());
}

#[test]
fn events_ignored_until_battery_index_known() {
    let mut device = LogitechDevice::new();
    let frame = [0x11, 0x01, 0x06, 0x00, 47, 30, 0x00];
    assert!(device.listen_for_battery_events(&frame, 1).is_none());
    assert!(!device.has_cached_battery());
}

#[test]
fn short_or_foreign_event_frames_ignored() {
    let mut device = enabled_device(0x06);
    // Six bytes: below the event minimum.
    assert!(device.listen_for_battery_events(&[0x11, 0x01, 0x06, 0x00, 47, 30], 3).is_none());
    // Short report id.
    assert!(device.listen_for_battery_events(&[0x10, 0x01, 0x06, 0x00, 47, 30, 0x00], 3).is_none());
    // Nothing read.
    assert!(device.listen_for_battery_events(&[], 3).is_none());
    assert!(!device.has_cached_battery());
}
