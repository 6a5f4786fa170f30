use traybattery::hidpp::battery::{BatteryInfo, BatteryStatus};
use traybattery::hidpp::validation::is_plausible;

fn create_battery_info(percentage: u8, charging: bool) -> BatteryInfo {
    BatteryInfo {
        percentage,
        charging,
        next_level: 0,
        status: if charging {
            BatteryStatus::ChargingSlow
        } else {
            BatteryStatus::Discharging
        },
    }
}

#[test]
fn test_valid_gradual_discharge() {
    // 85% -> 84%: fine
    let last = create_battery_info(85, false);
    let new = create_battery_info(84, false);

    let diff = (last.percentage as i16 - new.percentage as i16).abs();
    assert!(diff <= 50, "Should accept gradual discharge");
    assert!(is_plausible(&new, &Some(last)));
}

#[test]
fn test_reject_huge_jump() {
    // 85% -> 20%: a 65-point jump
    let last = create_battery_info(85, false);
    let new = create_battery_info(20, false);

    let diff = (last.percentage as i16 - new.percentage as i16).abs();
    assert!(diff > 50, "Should reject huge jump");
    assert!(!is_plausible(&new, &Some(last)));
}

#[test]
fn test_reject_sudden_low_charging() {
    // 47% discharging -> 1% charging
    let last = create_battery_info(47, false);
    let new = create_battery_info(1, true);

    assert!(
        !last.charging && new.charging && new.percentage <= 2,
        "Should detect suspicious charging state"
    );
    assert!(!is_plausible(&new, &Some(last)));
}

#[test]
fn test_accept_normal_charging_transition() {
    // 47% discharging -> 48% charging
    let last = create_battery_info(47, false);
    let new = create_battery_info(48, true);

    let diff = (last.percentage as i16 - new.percentage as i16).abs();
    assert!(diff <= 10, "Should accept normal charging transition");
    assert!(is_plausible(&new, &Some(last)));
}
