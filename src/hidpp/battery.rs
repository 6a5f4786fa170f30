//! Battery report decoding for the three HID++ battery feature families.
use vstd::prelude::*;

verus! {

/// Logitech's USB vendor identifier.
pub const LOGITECH_VENDOR_ID: u16 = 0x046D;

/// Root feature (always at feature index 0).
pub const FEATURE_ROOT: u16 = 0x0000;

/// Feature-set enumeration feature.
pub const FEATURE_FEATURE_SET: u16 = 0x0001;

/// Legacy two-state battery status feature.
pub const FEATURE_BATTERY_STATUS: u16 = 0x1000;

/// Battery voltage feature.
pub const FEATURE_BATTERY_VOLTAGE: u16 = 0x1001;

/// Unified battery feature, the preferred source of battery telemetry.
pub const FEATURE_UNIFIED_BATTERY: u16 = 0x1004;

/// Unified battery: GetCapabilities.
pub const UNIFIED_BATTERY_GET_CAPABILITIES: u8 = 0x00;

/// Unified battery: GetStatus.
pub const UNIFIED_BATTERY_GET_STATUS: u8 = 0x10;

/// Unified battery: ShowBatteryStatus (present on some devices).
pub const UNIFIED_BATTERY_SHOW_BATTERY_STATUS: u8 = 0x20;

/// Report identifier of a 7-byte short report.
pub const HIDPP_SHORT_REPORT: u8 = 0x10;

/// Report identifier of a 20-byte long report.
pub const HIDPP_LONG_REPORT: u8 = 0x11;

/// Highest percentage a genuine reading can carry.
pub const MAX_PERCENTAGE: u8 = 100;

/// Highest status code the unified format defines.
pub const UNIFIED_STATUS_MAX: u8 = 0x07;

/// First status code of the unified format's error range.
pub const UNIFIED_STATUS_ERROR_FIRST: u8 = 0x04;

/// Bit of the status/voltage flags byte that signals charging.
pub const CHARGING_FLAG: u8 = 0x80;

#[derive(Debug, Clone, Copy, PartialEq, Eq, Structural)]
pub enum BatteryStatus {
    Discharging,
    ChargingSlow,
    ChargingFast,
    ChargingWireless,
    Full,
    Error,
}

/// One battery reading as reported by a device.
#[derive(Debug, Clone, Copy, PartialEq, Eq, Structural)]
pub struct BatteryInfo {
    /// Charge level in percent.
    pub percentage: u8,
    pub charging: bool,
    /// Advisory warning level, passed through as reported.
    pub next_level: u8,
    pub status: BatteryStatus,
}

/// The unified format's charging state for an accepted status code.
pub open spec fn unified_status(code: u8) -> BatteryStatus {
    if code == 0x00 {
        BatteryStatus::Discharging
    } else if code == 0x01 {
        BatteryStatus::ChargingSlow
    } else if code == 0x02 {
        BatteryStatus::ChargingFast
    } else {
        BatteryStatus::ChargingWireless
    }
}

/// Whether the unified format rejects a (level, status) pair.
pub open spec fn unified_rejects(level: u8, code: u8) -> bool {
    ||| level > MAX_PERCENTAGE
    ||| code > UNIFIED_STATUS_MAX
    ||| UNIFIED_STATUS_ERROR_FIRST <= code <= UNIFIED_STATUS_MAX
    ||| (level == 1 && code != 0x00)
}

/// Decoding of a unified battery report `[level, next_level, status, ..]`.
pub open spec fn spec_unified(r: Seq<u8>) -> Option<BatteryInfo> {
    if r.len() < 3 || unified_rejects(r[0], r[2]) {
        None
    } else {
        Some(
            BatteryInfo {
                percentage: r[0],
                charging: r[2] != 0x00,
                next_level: r[1],
                status: unified_status(r[2]),
            },
        )
    }
}

/// A reading of the status and voltage formats: only the charging flag of
/// `flags` is read.
pub open spec fn flagged_reading(level: u8, next_level: u8, flags: u8) -> BatteryInfo {
    if flags >= CHARGING_FLAG {
        BatteryInfo {
            percentage: level,
            charging: true,
            next_level,
            status: BatteryStatus::ChargingSlow,
        }
    } else {
        BatteryInfo {
            percentage: level,
            charging: false,
            next_level,
            status: BatteryStatus::Discharging,
        }
    }
}

/// Decoding of a battery status report `[level, next_level, flags, ..]`.
pub open spec fn spec_status(r: Seq<u8>) -> Option<BatteryInfo> {
    if r.len() < 3 {
        None
    } else {
        Some(flagged_reading(r[0], r[1], r[2]))
    }
}

/// Decoding of a battery voltage report
/// `[voltage_hi, voltage_lo, level, next_level, flags, ..]`.
pub open spec fn spec_voltage(r: Seq<u8>) -> Option<BatteryInfo> {
    if r.len() < 5 {
        None
    } else {
        Some(flagged_reading(r[2], r[3], r[4]))
    }
}

/// Reads the charging flag of a status or voltage flags byte.
fn charging_flag_set(flags: u8) -> (r: bool)
    ensures
        r == (flags >= CHARGING_FLAG),
{
    assert((flags & 0x80u8 != 0) == (flags >= 0x80u8)) by (bit_vector);
    flags & CHARGING_FLAG != 0
}

fn flagged_info(level: u8, next_level: u8, flags: u8) -> (r: BatteryInfo)
    ensures
        r == flagged_reading(level, next_level, flags),
{
    if charging_flag_set(flags) {
        BatteryInfo { percentage: level, charging: true, next_level, status: BatteryStatus::ChargingSlow }
    } else {
        BatteryInfo { percentage: level, charging: false, next_level, status: BatteryStatus::Discharging }
    }
}

/// Decodes a unified battery GetStatus response.
///
/// Garbage is rejected rather than surfaced: short buffers, levels above
/// 100, undefined or error status codes, and 1% with any status other than
/// discharging all give `None`.
pub fn decipher_battery_unified(response: &[u8]) -> (r: Option<BatteryInfo>)
    ensures
        r == spec_unified(response@),
        response@.len() < 3 ==> r is None,
        response@.len() >= 3 && response@[0] > 100 ==> r is None,
        response@.len() >= 3 && 0x04 <= response@[2] <= 0x07 ==> r is None,
        response@.len() >= 3 && response@[0] == 1 && response@[2] != 0x00 ==> r is None,
        response@.len() >= 3 && response@[0] == 1 && response@[2] == 0x00 ==> r == Some(
            BatteryInfo {
                percentage: 1,
                charging: false,
                next_level: response@[1],
                status: BatteryStatus::Discharging,
            },
        ),
{
    if response.len() < 3 {
        return None;
    }
    let battery_level = response[0];
    let next_level = response[1];
    let status_byte = response[2];

    if battery_level > MAX_PERCENTAGE {
        return None;
    }
    if status_byte > UNIFIED_STATUS_MAX {
        return None;
    }
    // Error and disconnect codes must not show up as a 0% reading.
    if status_byte >= UNIFIED_STATUS_ERROR_FIRST {
        return None;
    }
    // 1% together with a charging status is noise, not telemetry.
    if battery_level == 1 && status_byte != 0x00 {
        return None;
    }
    let (charging, status) = match status_byte {
        0x00 => (false, BatteryStatus::Discharging),
        0x01 => (true, BatteryStatus::ChargingSlow),
        0x02 => (true, BatteryStatus::ChargingFast),
        _ => (true, BatteryStatus::ChargingWireless),
    };
    Some(BatteryInfo { percentage: battery_level, charging, next_level, status })
}

/// Decodes a battery status (feature 0x1000) response. This legacy format
/// gets no plausibility filtering beyond its length.
pub fn decipher_battery_status(response: &[u8]) -> (r: Option<BatteryInfo>)
    ensures
        r == spec_status(response@),
{
    if response.len() < 3 {
        return None;
    }
    Some(flagged_info(response[0], response[1], response[2]))
}

/// Decodes a battery voltage (feature 0x1001) response; the voltage itself
/// is not part of the reading.
pub fn decipher_battery_voltage(response: &[u8]) -> (r: Option<BatteryInfo>)
    ensures
        r == spec_voltage(response@),
{
    if response.len() < 5 {
        return None;
    }
    Some(flagged_info(response[2], response[3], response[4]))
}

} // verus!
