//! User settings: polling interval and icon color thresholds.
use vstd::prelude::*;

verus! {

/// Shortest accepted polling interval, in seconds.
pub const MIN_POLLING_INTERVAL: u64 = 10;

/// Longest accepted polling interval, in seconds.
pub const MAX_POLLING_INTERVAL: u64 = 3600;

/// Highest accepted threshold, in percent.
pub const MAX_THRESHOLD: u8 = 100;

#[derive(Debug, Clone, Copy, PartialEq, Eq, Structural)]
pub struct AppConfig {
    /// Interval in seconds for polling when events are not available.
    pub polling_interval: u64,
    pub red_threshold: u8,
    pub yellow_threshold: u8,
    pub disable_red: bool,
    pub disable_yellow: bool,
}

impl Default for AppConfig {
    fn default() -> (r: AppConfig)
        ensures
            r == (AppConfig {
                polling_interval: 60,
                red_threshold: 20,
                yellow_threshold: 30,
                disable_red: false,
                disable_yellow: false,
            }),
    {
        AppConfig {
            polling_interval: 60,
            red_threshold: 20,
            yellow_threshold: 30,
            disable_red: false,
            disable_yellow: false,
        }
    }
}

/// Why a configuration was refused.
#[derive(Debug, Clone, Copy, PartialEq, Eq, Structural)]
pub enum ConfigError {
    PollingIntervalTooShort,
    PollingIntervalTooLong,
    RedThresholdOutOfRange,
    YellowThresholdOutOfRange,
    ThresholdsOutOfOrder,
}

impl ConfigError {
    /// The message shown to the user.
    pub fn to_string(&self) -> (r: String)
        ensures
            *self == ConfigError::PollingIntervalTooShort ==> r@
                == "polling_interval must be at least 10 seconds"@,
            *self == ConfigError::PollingIntervalTooLong ==> r@
                == "polling_interval must not exceed 3600 seconds (1 hour)"@,
            *self == ConfigError::RedThresholdOutOfRange ==> r@
                == "red_threshold must be between 0 and 100"@,
            *self == ConfigError::YellowThresholdOutOfRange ==> r@
                == "yellow_threshold must be between 0 and 100"@,
            *self == ConfigError::ThresholdsOutOfOrder ==> r@
                == "red_threshold must be less than yellow_threshold"@,
    {
        match self {
            ConfigError::PollingIntervalTooShort => "polling_interval must be at least 10 seconds".to_string(),
            ConfigError::PollingIntervalTooLong => "polling_interval must not exceed 3600 seconds (1 hour)".to_string(),
            ConfigError::RedThresholdOutOfRange => "red_threshold must be between 0 and 100".to_string(),
            ConfigError::YellowThresholdOutOfRange => "yellow_threshold must be between 0 and 100".to_string(),
            ConfigError::ThresholdsOutOfOrder => "red_threshold must be less than yellow_threshold".to_string(),
        }
    }
}

/// The first rule a configuration breaks, checked in this order: polling
/// interval bounds, threshold ranges, threshold order.
pub open spec fn spec_validate(c: AppConfig) -> Result<(), ConfigError> {
    if c.polling_interval < MIN_POLLING_INTERVAL {
        Err(ConfigError::PollingIntervalTooShort)
    } else if c.polling_interval > MAX_POLLING_INTERVAL {
        Err(ConfigError::PollingIntervalTooLong)
    } else if c.red_threshold > MAX_THRESHOLD {
        Err(ConfigError::RedThresholdOutOfRange)
    } else if c.yellow_threshold > MAX_THRESHOLD {
        Err(ConfigError::YellowThresholdOutOfRange)
    } else if c.red_threshold >= c.yellow_threshold {
        Err(ConfigError::ThresholdsOutOfOrder)
    } else {
        Ok(())
    }
}

/// Checks a loaded configuration.
pub fn validate_config(config: &AppConfig) -> (r: Result<(), ConfigError>)
    ensures
        r == spec_validate(*config),
        r is Ok <==> MIN_POLLING_INTERVAL <= config.polling_interval <= MAX_POLLING_INTERVAL
            && config.red_threshold < config.yellow_threshold <= MAX_THRESHOLD,
{
    if config.polling_interval < MIN_POLLING_INTERVAL {
        return Err(ConfigError::PollingIntervalTooShort);
    }
    if config.polling_interval > MAX_POLLING_INTERVAL {
        return Err(ConfigError::PollingIntervalTooLong);
    }
    if config.red_threshold > MAX_THRESHOLD {
        return Err(ConfigError::RedThresholdOutOfRange);
    }
    if config.yellow_threshold > MAX_THRESHOLD {
        return Err(ConfigError::YellowThresholdOutOfRange);
    }
    if config.red_threshold >= config.yellow_threshold {
        return Err(ConfigError::ThresholdsOutOfOrder);
    }
    Ok(())
}

} // verus!
