//! Tray state for the freedesktop status notifier.
use vstd::prelude::*;
use crate::config::AppConfig;
use crate::tray::TrayError;

verus! {

/// Tray for the freedesktop status notifier; it carries the configuration it was made with.
#[derive(Debug, Clone, Copy, PartialEq, Eq, Structural)]
pub struct LinuxTray {
    pub config: AppConfig,
}

/// Makes the tray with the default configuration.
pub fn create_tray() -> (r: Result<LinuxTray, TrayError>)
    ensures
        r == Ok::<LinuxTray, TrayError>(LinuxTray {
            config: AppConfig {
                polling_interval: 60,
                red_threshold: 20,
                yellow_threshold: 30,
                disable_red: false,
                disable_yellow: false,
            },
        }),
{
    Ok(LinuxTray { config: AppConfig::default() })
}

} // verus!
