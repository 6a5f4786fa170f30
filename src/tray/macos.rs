//! Tray state for the macOS status bar.
use vstd::prelude::*;
use crate::config::AppConfig;
use crate::tray::TrayError;

verus! {

/// Tray for the macOS status bar; it carries the configuration it was made with.
#[derive(Debug, Clone, Copy, PartialEq, Eq, Structural)]
pub struct MacOSTray {
    pub config: AppConfig,
}

/// Makes the tray with the default configuration.
pub fn create_tray() -> (r: Result<MacOSTray, TrayError>)
    ensures
        r == Ok::<MacOSTray, TrayError>(MacOSTray {
            config: AppConfig {
                polling_interval: 60,
                red_threshold: 20,
                yellow_threshold: 30,
                disable_red: false,
                disable_yellow: false,
            },
        }),
{
    Ok(MacOSTray { config: AppConfig::default() })
}

} // verus!
