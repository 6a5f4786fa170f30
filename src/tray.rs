//! What the status-bar icon shows for a reading. Drawing is left to the
//! platform front ends.
pub mod linux;
pub mod macos;

use vstd::prelude::*;
use crate::config::AppConfig;
use crate::hidpp::battery::{BatteryInfo, BatteryStatus};

verus! {

/// Color of the percentage text in the icon.
#[derive(Debug, Clone, Copy, PartialEq, Eq, Structural)]
pub enum IconColor {
    Red,
    Yellow,
    White,
}

/// Red at or below the red threshold, else yellow at or below the yellow
/// threshold, else white; a disabled zone never colors.
pub open spec fn spec_icon_color(percentage: u8, config: AppConfig) -> IconColor {
    if percentage <= config.red_threshold && !config.disable_red {
        IconColor::Red
    } else if percentage <= config.yellow_threshold && !config.disable_yellow {
        IconColor::Yellow
    } else {
        IconColor::White
    }
}

pub open spec fn spec_rgba(c: IconColor) -> Seq<u8> {
    match c {
        IconColor::Red => seq![255u8, 0u8, 0u8, 255u8],
        IconColor::Yellow => seq![255u8, 255u8, 0u8, 255u8],
        IconColor::White => seq![255u8, 255u8, 255u8, 255u8],
    }
}

impl IconColor {
    /// Opaque RGBA pixel value of the color.
    pub fn rgba(&self) -> (r: [u8; 4])
        ensures
            r@ == spec_rgba(*self),
    {
        let r = match self {
            IconColor::Red => [255u8, 0u8, 0u8, 255u8],
            IconColor::Yellow => [255u8, 255u8, 0u8, 255u8],
            IconColor::White => [255u8, 255u8, 255u8, 255u8],
        };
        assert(r@ =~= spec_rgba(*self));
        r
    }
}

/// Icon text color for a charge level under `config`.
pub fn icon_color(percentage: u8, config: &AppConfig) -> (r: IconColor)
    ensures
        r == spec_icon_color(percentage, *config),
{
    if percentage <= config.red_threshold && !config.disable_red {
        IconColor::Red
    } else if percentage <= config.yellow_threshold && !config.disable_yellow {
        IconColor::Yellow
    } else {
        IconColor::White
    }
}

/// What the icon and tooltip should show.
#[derive(Debug, Clone, Copy, PartialEq, Eq, Structural)]
pub struct TrayView {
    pub percentage: u8,
    pub charging: bool,
    pub status: BatteryStatus,
    pub color: IconColor,
}

pub open spec fn spec_view_of(battery: BatteryInfo, config: AppConfig) -> TrayView {
    TrayView {
        percentage: battery.percentage,
        charging: battery.charging,
        status: battery.status,
        color: spec_icon_color(battery.percentage, config),
    }
}

/// Percentage no reading carries: nothing has been shown yet.
pub const NOTHING_SHOWN: u8 = 255;

/// Remembers what the icon shows, so that it is only redrawn when the
/// percentage or the charging state changes.
#[derive(Debug, Clone, Copy, PartialEq, Eq, Structural)]
pub struct TrayState {
    pub last_percentage: u8,
    pub last_charging: bool,
}

impl TrayState {
    pub fn new() -> (r: TrayState)
        ensures
            r == (TrayState { last_percentage: NOTHING_SHOWN, last_charging: false }),
    {
        TrayState { last_percentage: NOTHING_SHOWN, last_charging: false }
    }

    /// The view to draw for `battery`, or `None` when the icon already
    /// shows its percentage and charging state.
    pub fn refresh(&mut self, battery: &BatteryInfo, config: &AppConfig) -> (r: Option<TrayView>)
        ensures
            (battery.percentage == old(self).last_percentage && battery.charging
                == old(self).last_charging) ==> r is None && *final(self) == *old(self),
            !(battery.percentage == old(self).last_percentage && battery.charging
                == old(self).last_charging) ==> r == Some(spec_view_of(*battery, *config))
                && *final(self) == (TrayState {
                last_percentage: battery.percentage,
                last_charging: battery.charging,
            }),
    {
        if battery.percentage == self.last_percentage && battery.charging == self.last_charging {
            return None;
        }
        self.last_percentage = battery.percentage;
        self.last_charging = battery.charging;
        Some(TrayView {
            percentage: battery.percentage,
            charging: battery.charging,
            status: battery.status,
            color: icon_color(battery.percentage, config),
        })
    }
}

/// Why no tray could be made.
#[derive(Debug, Clone, Copy, PartialEq, Eq, Structural)]
pub enum TrayError {
    UnsupportedPlatform,
}

} // verus!
