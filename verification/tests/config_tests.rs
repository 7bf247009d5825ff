//! Tests for the configuration loader and the unit parser.

use waybar_weather::config::{Config, ConfigError};
use waybar_weather::unit::Unit;

fn args(parts: &[&str]) -> Vec<String> {
    parts.iter().map(|s| s.to_string()).collect()
}

#[test]
fn loads_flags_in_any_order() {
    let a = args(&["prog", "-zip", "90210", "-unit", "c", "-key", "abc"]);
    let c = Config::from_args(&a).unwrap();
    assert_eq!(c.key, "abc");
    assert_eq!(c.zipcode, "90210");
    assert_eq!(c.temp_unit, Unit::Celsius);
}

#[test]
fn unit_token_is_case_insensitive() {
    for (token, unit) in [
        ("c", Unit::Celsius),
        ("C", Unit::Celsius),
        ("celsius", Unit::Celsius),
        ("CELSIUS", Unit::Celsius),
        ("Celsius", Unit::Celsius),
        ("f", Unit::Fahrenheit),
        ("F", Unit::Fahrenheit),
        ("fahrenheit", Unit::Fahrenheit),
        ("FaHrEnHeIt", Unit::Fahrenheit),
    ] {
        assert_eq!(Unit::from_token(token), Some(unit), "token {}", token);
        let a = args(&["prog", "-key", "abc", "-zip", "90210", "-unit", token]);
        assert_eq!(Config::from_args(&a).unwrap().temp_unit, unit);
    }
}

#[test]
fn unrecognized_unit_tokens_are_refused() {
    for token in ["kelvin", "cc", "", "fahren", "celsius "] {
        assert_eq!(Unit::from_token(token), None, "token {:?}", token);
    }
}

#[test]
fn missing_unit_is_a_usage_error() {
    let a = args(&["prog", "-key", "abc", "-zip", "90210"]);
    assert_eq!(Config::from_args(&a).unwrap_err(), ConfigError::Usage);
}

#[test]
fn missing_key_is_a_usage_error() {
    let a = args(&["prog", "-zip", "90210", "-unit", "c", "-x", "y"]);
    assert_eq!(Config::from_args(&a).unwrap_err(), ConfigError::Usage);
}

#[test]
fn wrong_token_count_is_a_usage_error() {
    let a = args(&["prog", "-key", "abc", "-zip", "90210", "-unit", "c", "extra"]);
    assert_eq!(Config::from_args(&a).unwrap_err(), ConfigError::Usage);
}

#[test]
fn bad_unit_value_is_fatal() {
    let a = args(&["prog", "-key", "abc", "-zip", "90210", "-unit", "kelvin"]);
    assert_eq!(Config::from_args(&a).unwrap_err(), ConfigError::BadUnit);
}

#[test]
fn duplicate_flags_leave_required_values_missing() {
    // Exactly seven tokens, but the duplicate pair crowds out `-zip` and
    // `-unit`, so the configuration is incomplete.
    let a = args(&["prog", "-key", "abc", "-key", "def", "-key", "ghi"]);
    assert_eq!(Config::from_args(&a).unwrap_err(), ConfigError::Usage);
}

#[test]
fn bad_unit_outweighs_a_wrong_token_count() {
    let a = args(&["prog", "-unit", "kelvin"]);
    assert_eq!(Config::from_args(&a).unwrap_err(), ConfigError::BadUnit);
}

#[test]
fn unit_letters() {
    assert_eq!(Unit::Celsius.letter(), "C");
    assert_eq!(Unit::Fahrenheit.letter(), "F");
}
