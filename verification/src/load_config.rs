//! The configuration and the rules it has to meet.
//!
//! Reading and parsing the configuration file is left to the caller, which
//! hands the parsed values to [`load_config`].

use vstd::prelude::*;
use vstd::string::*;

verus! {

/// The greatest pin number.
pub const MAX_PIN: u8 = 27;

/// The greatest startup volume.
pub const MAX_STARTUP_VOLUME: i32 = 100;

/// The configuration.
#[derive(Clone, Debug, PartialEq, Eq)]
pub struct Config {
    /// The pin of the encoder's clock line.
    pub clk_pin: u8,
    /// The pin of the encoder's data line.
    pub dt_pin: u8,
    /// The mixer control.
    pub device: String,
    /// The greatest volume to start with.
    pub startup_volume: i32,
}

/// The rule that a configuration breaks.
#[derive(Clone, Copy, Debug, PartialEq, Eq)]
pub enum ConfigError {
    /// The clock pin is above 27.
    InvalidClkPin,
    /// The data pin is above 27.
    InvalidDtPin,
    /// The startup volume is not between 0 and 100.
    InvalidStartupVolume,
}

/// The first rule that the values break, if they break one: the clock pin
/// is looked at first, then the data pin, then the startup volume.
pub open spec fn spec_config_error(clk_pin: int, dt_pin: int, startup_volume: int) -> Option<ConfigError> {
    if clk_pin > MAX_PIN {
        Some(ConfigError::InvalidClkPin)
    } else if dt_pin > MAX_PIN {
        Some(ConfigError::InvalidDtPin)
    } else if startup_volume < 0 || startup_volume > MAX_STARTUP_VOLUME {
        Some(ConfigError::InvalidStartupVolume)
    } else {
        None
    }
}

impl ConfigError {
    /// The error in words.
    pub fn message(&self) -> (text: String)
        ensures
            text@ == (match *self {
                ConfigError::InvalidClkPin => "Invalid clk_pin in config. Valid range (0-27)"@,
                ConfigError::InvalidDtPin => "Invalid dt_pin in config. Valid range (0-27)"@,
                ConfigError::InvalidStartupVolume =>
                    "Invalid max_startup_volume in config. Valid range (0-100)"@,
            }),
    {
        match self {
            ConfigError::InvalidClkPin => "Invalid clk_pin in config. Valid range (0-27)".to_owned(),
            ConfigError::InvalidDtPin => "Invalid dt_pin in config. Valid range (0-27)".to_owned(),
            ConfigError::InvalidStartupVolume =>
                "Invalid max_startup_volume in config. Valid range (0-100)".to_owned(),
        }
    }
}

/// Admits a parsed configuration: hands it back unchanged where it meets
/// every rule, and names the first rule that it breaks otherwise.
pub fn load_config(config: Config) -> (loaded: Result<Config, ConfigError>)
    ensures
        match loaded {
            Ok(accepted) => accepted == config && spec_config_error(
                config.clk_pin as int,
                config.dt_pin as int,
                config.startup_volume as int,
            ) is None,
            Err(error) => spec_config_error(
                config.clk_pin as int,
                config.dt_pin as int,
                config.startup_volume as int,
            ) == Some(error),
        },
{
    if config.clk_pin > MAX_PIN {
        return Err(ConfigError::InvalidClkPin);
    }
    if config.dt_pin > MAX_PIN {
        return Err(ConfigError::InvalidDtPin);
    }
    if config.startup_volume < 0 || config.startup_volume > MAX_STARTUP_VOLUME {
        return Err(ConfigError::InvalidStartupVolume);
    }
    Ok(config)
}

} // verus!
