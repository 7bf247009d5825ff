//! Tests for the response decoder: realistic bodies, escapes, and each
//! failure kind.

use waybar_weather::weather::{decode_weather, DecodeError};
use waybar_weather::condition::WeatherCondition;

#[test]
fn decodes_a_realistic_body_with_extra_fields() {
    let body = "{\n  \"location\": {\"name\": \"Beverly Hills\", \"lat\": 34.09},\n  \"current\": {\n    \"last_updated\": \"2024-01-01 12:00\",\n    \"temp_c\": 21.5,\n    \"temp_f\": 70.7,\n    \"is_day\": 1,\n    \"condition\": {\"text\": \"Sunny\", \"icon\": \"//cdn/sunny.png\", \"code\": 1000},\n    \"wind_mph\": 2.2\n  }\n}";
    let w = decode_weather(body).expect("the body must decode");
    assert_eq!(w.temp_c, "21.5");
    assert_eq!(w.temp_f, "70.7");
    assert_eq!(w.condition, WeatherCondition::Sunny);
}

#[test]
fn keeps_the_raw_number_text() {
    let body = "{\"current\":{\"temp_c\":-0.50,\"temp_f\":31.1e0,\"condition\":{\"text\":\"Blizzard\"}}}";
    let w = decode_weather(body).expect("the body must decode");
    assert_eq!(w.temp_c, "-0.50");
    assert_eq!(w.temp_f, "31.1e0");
    assert_eq!(w.condition, WeatherCondition::Blizzard);
}

#[test]
fn decodes_escaped_condition_text() {
    let body = "{\"current\":{\"temp_c\":1,\"temp_f\":2,\"condition\":{\"text\":\"\\u0053unny\"}}}";
    let w = decode_weather(body).expect("the body must decode");
    assert_eq!(w.condition, WeatherCondition::Sunny);
}

#[test]
fn unknown_condition_label_is_refused() {
    let body = "{\"current\":{\"temp_c\":1,\"temp_f\":2,\"condition\":{\"text\":\"Hailstorm\"}}}";
    assert_eq!(decode_weather(body).unwrap_err(), DecodeError::UnknownCondition);
}

#[test]
fn malformed_json_is_refused() {
    for body in ["", "{", "{\"current\": }", "[1,", "{\"a\":1} trailing"] {
        assert_eq!(decode_weather(body).unwrap_err(), DecodeError::InvalidJson, "body {:?}", body);
    }
}

#[test]
fn missing_fields_are_refused() {
    let bodies = [
        "{}",
        "{\"current\": {}}",
        "{\"current\": {\"temp_c\": 1, \"condition\": {\"text\": \"Sunny\"}}}",
        "{\"current\": {\"temp_c\": 1, \"temp_f\": 2}}",
        "{\"current\": {\"temp_c\": \"warm\", \"temp_f\": 2, \"condition\": {\"text\": \"Sunny\"}}}",
        "[]",
    ];
    for body in bodies {
        assert_eq!(decode_weather(body).unwrap_err(), DecodeError::MissingField, "body {:?}", body);
    }
}

#[test]
fn first_matching_member_wins() {
    let body = "{\"current\":{\"temp_c\":1,\"temp_c\":9,\"temp_f\":2,\"condition\":{\"text\":\"Mist\"}}}";
    let w = decode_weather(body).expect("the body must decode");
    assert_eq!(w.temp_c, "1");
}
