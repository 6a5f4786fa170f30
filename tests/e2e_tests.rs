use image::Rgba;
use traybattery::config::AppConfig;
use traybattery::hidpp::battery::{BatteryInfo, BatteryStatus};
use traybattery::hidpp::validation::is_plausible_event;
use traybattery::tray::icon_color;

#[test]
fn test_full_data_flow_without_device() {
    // 1. Configuration
    let config = AppConfig::default();
    assert_eq!(config.red_threshold, 20);
    assert_eq!(config.yellow_threshold, 30);

    // 2. A battery reading
    let battery = BatteryInfo {
        percentage: 47,
        charging: false,
        next_level: 30,
        status: BatteryStatus::Discharging,
    };

    // 3. Icon color, as the tray computes it
    let color = if battery.percentage <= config.red_threshold {
        Rgba([255, 0, 0, 255])
    } else if battery.percentage <= config.yellow_threshold {
        Rgba([255, 255, 0, 255])
    } else {
        Rgba([255, 255, 255, 255])
    };

    assert_eq!(color, Rgba([255, 255, 255, 255]), "47% should be white");
    assert_eq!(Rgba(icon_color(battery.percentage, &config).rgba()), color);

    // 4. Tooltip
    let tooltip = format!("Logitech Battery: {}% 🔌\nStatus: {:?}", battery.percentage, battery.status);
    assert!(tooltip.contains("47%"));
    assert!(tooltip.contains("Discharging"));
}

#[test]
fn test_state_transitions() {
    let scenarios = vec![
        // (start%, start_charging) -> (end%, end_charging) -> expected_valid
        (50, false, 49, false, true),   // normal discharge
        (50, false, 51, true, true),    // plugged in
        (50, true, 55, true, true),     // charging
        (50, false, 10, false, false),  // suspicious: 40-point drop
        (50, false, 1, true, false),    // suspicious: 1% charging
        (50, false, 128, false, false), // garbage: 128%
    ];

    for (start_pct, start_chr, end_pct, end_chr, expected_valid) in scenarios {
        let last = BatteryInfo {
            percentage: start_pct,
            charging: start_chr,
            next_level: 0,
            status: if start_chr { BatteryStatus::ChargingSlow } else { BatteryStatus::Discharging },
        };

        let new = BatteryInfo {
            percentage: end_pct,
            charging: end_chr,
            next_level: 0,
            status: if end_chr { BatteryStatus::ChargingSlow } else { BatteryStatus::Discharging },
        };

        // Event-path validation: the general rule plus the 10-point bound
        // on changes without charging.
        let is_valid = is_plausible_event(&new, &Some(last));

        assert_eq!(
            is_valid,
            expected_valid,
            "{}% {} -> {}% {} should be {}",
            start_pct,
            if start_chr { "CHR" } else { "DIS" },
            end_pct,
            if end_chr { "CHR" } else { "DIS" },
            if expected_valid { "VALID" } else { "INVALID" }
        );
    }
}
