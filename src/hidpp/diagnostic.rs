//! Summaries of raw frames for the diagnostic report.
use vstd::prelude::*;
use crate::hidpp::battery::MAX_PERCENTAGE;

verus! {

/// The four header bytes of a report.
#[derive(Debug, Clone, Copy, PartialEq, Eq, Structural)]
pub struct FrameHeader {
    pub report_id: u8,
    pub device_index: u8,
    pub feature_index: u8,
    pub function_id: u8,
}

/// The header of a frame of at least four bytes.
pub fn frame_header(frame: &[u8]) -> (r: Option<FrameHeader>)
    ensures
        frame@.len() < 4 ==> r is None,
        frame@.len() >= 4 ==> r == Some(
            FrameHeader {
                report_id: frame@[0],
                device_index: frame@[1],
                feature_index: frame@[2],
                function_id: frame@[3],
            },
        ),
{
    if frame.len() < 4 {
        return None;
    }
    Some(FrameHeader { report_id: frame[0], device_index: frame[1], feature_index: frame[2], function_id: frame[3] })
}

/// Feature indices at which battery features commonly sit.
pub open spec fn spec_maybe_battery_event(h: FrameHeader) -> bool {
    h.feature_index == 0x04 || h.feature_index == 0x00
}

/// Whether a received frame may be a battery event, judged by the feature
/// index battery features commonly use.
pub fn maybe_battery_event(header: &FrameHeader) -> (r: bool)
    ensures
        r == spec_maybe_battery_event(*header),
{
    header.feature_index == 0x04 || header.feature_index == 0x00
}

/// How a battery response reads in the diagnostic report.
#[derive(Debug, Clone, Copy, PartialEq, Eq, Structural)]
pub enum ResponseSummary {
    /// Fewer than three bytes.
    Insufficient,
    /// A level above 100: shown as raw bytes.
    Raw,
    /// Level, next level and raw status code.
    Battery { level: u8, next_level: u8, status_code: u8 },
}

/// Summarizes a `[level, next_level, status, ..]` response.
pub fn summarize_battery_response(response: &[u8]) -> (r: ResponseSummary)
    ensures
        response@.len() < 3 ==> r == ResponseSummary::Insufficient,
        response@.len() >= 3 && response@[0] > MAX_PERCENTAGE ==> r == ResponseSummary::Raw,
        response@.len() >= 3 && response@[0] <= MAX_PERCENTAGE ==> r == (ResponseSummary::Battery {
            level: response@[0],
            next_level: response@[1],
            status_code: response@[2],
        }),
{
    if response.len() < 3 {
        return ResponseSummary::Insufficient;
    }
    if response[0] > MAX_PERCENTAGE {
        return ResponseSummary::Raw;
    }
    ResponseSummary::Battery { level: response[0], next_level: response[1], status_code: response[2] }
}

/// Name of a raw battery status code in the diagnostic report.
pub fn status_label(code: u8) -> (r: &'static str)
    ensures
        code == 0x00 ==> r@ == "Discharging"@,
        code == 0x01 ==> r@ == "Slow Charging"@,
        code == 0x02 ==> r@ == "Fast Charging"@,
        code == 0x03 ==> r@ == "Full Charging"@,
        code == 0x04 ==> r@ == "Charging Error"@,
        code == 0x05 ==> r@ == "Charging"@,
        code == 0x06 ==> r@ == "Fast Charging (alt)"@,
        code > 0x06 ==> r@ == "Unknown Status"@,
{
    match code {
        0x00 => "Discharging",
        0x01 => "Slow Charging",
        0x02 => "Fast Charging",
        0x03 => "Full Charging",
        0x04 => "Charging Error",
        0x05 => "Charging",
        0x06 => "Fast Charging (alt)",
        _ => "Unknown Status",
    }
}

} // verus!
