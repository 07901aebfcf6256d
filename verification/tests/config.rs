use rotary_volume::load_config::{load_config, Config, ConfigError};

fn config(clk_pin: u8, dt_pin: u8, startup_volume: i32) -> Config {
    Config { clk_pin, dt_pin, device: "Digital".to_string(), startup_volume }
}

#[test]
fn valid_config_is_handed_back() {
    assert_eq!(load_config(config(17, 18, 40)), Ok(config(17, 18, 40)));
    assert_eq!(load_config(config(0, 0, 0)), Ok(config(0, 0, 0)));
    assert_eq!(load_config(config(27, 27, 100)), Ok(config(27, 27, 100)));
}

#[test]
fn clk_pin_above_27_is_refused() {
    assert_eq!(load_config(config(28, 18, 40)), Err(ConfigError::InvalidClkPin));
    assert_eq!(load_config(config(255, 18, 40)), Err(ConfigError::InvalidClkPin));
}

#[test]
fn dt_pin_above_27_is_refused() {
    assert_eq!(load_config(config(17, 28, 40)), Err(ConfigError::InvalidDtPin));
}

#[test]
fn startup_volume_outside_0_to_100_is_refused() {
    assert_eq!(load_config(config(17, 18, -1)), Err(ConfigError::InvalidStartupVolume));
    assert_eq!(load_config(config(17, 18, 101)), Err(ConfigError::InvalidStartupVolume));
    assert_eq!(load_config(config(17, 18, i32::MIN)), Err(ConfigError::InvalidStartupVolume));
}

#[test]
fn first_broken_rule_is_named() {
    assert_eq!(load_config(config(28, 28, 101)), Err(ConfigError::InvalidClkPin));
    assert_eq!(load_config(config(27, 28, 101)), Err(ConfigError::InvalidDtPin));
}

#[test]
fn errors_have_their_messages() {
    assert_eq!(
        ConfigError::InvalidClkPin.message(),
        "Invalid clk_pin in config. Valid range (0-27)"
    );
    assert_eq!(
        ConfigError::InvalidDtPin.message(),
        "Invalid dt_pin in config. Valid range (0-27)"
    );
    assert_eq!(
        ConfigError::InvalidStartupVolume.message(),
        "Invalid max_startup_volume in config. Valid range (0-100)"
    );
}
