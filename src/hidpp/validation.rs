//! Plausibility of a new battery reading against the last accepted one.
use vstd::prelude::*;
use crate::hidpp::battery::BatteryInfo;

verus! {

/// Largest change in percent accepted between two consecutive readings.
pub const MAX_STEP_CHANGE: u8 = 50;

/// Largest change in percent accepted from an unsolicited event frame that
/// does not report charging.
pub const MAX_EVENT_STEP_CHANGE: u8 = 10;

/// A switch from discharging to charging at or below this level is treated
/// as a garbled frame.
pub const LOW_CHARGE_FLOOR: u8 = 2;

/// Distance between two percentages.
pub open spec fn percent_distance(a: u8, b: u8) -> int {
    if a >= b {
        a - b
    } else {
        b - a
    }
}

/// The general transition rule, used by active reads.
pub open spec fn spec_plausible(candidate: BatteryInfo, last: Option<BatteryInfo>) -> bool {
    match last {
        None => true,
        Some(prev) => {
            &&& percent_distance(prev.percentage, candidate.percentage) <= MAX_STEP_CHANGE
            &&& !(!prev.charging && candidate.charging && candidate.percentage <= LOW_CHARGE_FLOOR)
        },
    }
}

/// The event-path rule: the general rule plus a tighter bound on changes
/// that come without charging.
pub open spec fn spec_plausible_event(candidate: BatteryInfo, last: Option<BatteryInfo>) -> bool {
    &&& spec_plausible(candidate, last)
    &&& match last {
        None => true,
        Some(prev) => candidate.charging || percent_distance(prev.percentage, candidate.percentage)
            <= MAX_EVENT_STEP_CHANGE,
    }
}

fn distance(a: u8, b: u8) -> (r: u8)
    ensures
        r == percent_distance(a, b),
{
    if a >= b {
        a - b
    } else {
        b - a
    }
}

/// Whether `candidate` may follow `last` on the active-read path. Without a
/// previous reading every candidate is plausible.
pub fn is_plausible(candidate: &BatteryInfo, last: &Option<BatteryInfo>) -> (r: bool)
    ensures
        r == spec_plausible(*candidate, *last),
{
    match last {
        None => true,
        Some(prev) => {
            if distance(prev.percentage, candidate.percentage) > MAX_STEP_CHANGE {
                return false;
            }
            if !prev.charging && candidate.charging && candidate.percentage <= LOW_CHARGE_FLOOR {
                return false;
            }
            true
        },
    }
}

/// Whether `candidate`, taken from an unsolicited event frame, may follow
/// `last`.
pub fn is_plausible_event(candidate: &BatteryInfo, last: &Option<BatteryInfo>) -> (r: bool)
    ensures
        r == spec_plausible_event(*candidate, *last),
{
    if !is_plausible(candidate, last) {
        return false;
    }
    match last {
        None => true,
        Some(prev) => candidate.charging || distance(prev.percentage, candidate.percentage)
            <= MAX_EVENT_STEP_CHANGE,
    }
}

} // verus!
