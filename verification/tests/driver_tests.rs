//! Tests for the poll-cycle decisions and the status formatter.

use waybar_weather::config::Config;
use waybar_weather::unit::Unit;
use waybar_weather::driver::{poll_cycle, format_status, CycleOutcome, PollEvent};
use waybar_weather::weather::{decode_weather, DecodeError, WeatherSample};
use waybar_weather::condition::WeatherCondition;

fn celsius_config() -> Config {
    Config {
        key: "abc".to_string(),
        zipcode: "90210".to_string(),
        temp_unit: Unit::Celsius,
    }
}

const BODY: &str =
    "{\"current\": {\"temp_c\": 21.5, \"temp_f\": 70.7, \"condition\": {\"text\": \"Sunny\"}}}";

#[test]
fn scenario_celsius_emits_full_record() {
    let config = celsius_config();
    let event = PollEvent::Response { status: 200, body: BODY.to_string() };
    match poll_cycle(&config, &event) {
        CycleOutcome::Emit(line) => {
            assert_eq!(
                line,
                "{\"text\":\"21.5\u{b0} C\",\"alt\":\"\",\"tooltip\":\"Current temperature: 21.5\u{b0} C\",\"class\":\"weather\"}"
            );
        }
        other => panic!("expected an emitted record, got {:?}", other),
    }
}

#[test]
fn scenario_fahrenheit_text() {
    let mut config = celsius_config();
    config.temp_unit = Unit::Fahrenheit;
    let event = PollEvent::Response { status: 200, body: BODY.to_string() };
    match poll_cycle(&config, &event) {
        CycleOutcome::Emit(line) => {
            assert!(line.starts_with("{\"text\":\"70.7\u{b0} F\","), "line was {}", line);
            assert!(line.contains("\"tooltip\":\"Current temperature: 70.7\u{b0} F\""));
        }
        other => panic!("expected an emitted record, got {:?}", other),
    }
}

#[test]
fn scenario_bad_status_is_fatal() {
    let config = celsius_config();
    let event = PollEvent::Response { status: 500, body: String::new() };
    match poll_cycle(&config, &event) {
        CycleOutcome::Fatal(status) => assert_eq!(status, 500),
        other => panic!("expected a fatal outcome, got {:?}", other),
    }
}

#[test]
fn scenario_transport_error_skips_cycle() {
    let config = celsius_config();
    match poll_cycle(&config, &PollEvent::TransportError) {
        CycleOutcome::SkipTransport => {}
        other => panic!("expected a skipped cycle, got {:?}", other),
    }
}

#[test]
fn scenario_unknown_condition_skips_cycle() {
    let config = celsius_config();
    let body = BODY.replace("Sunny", "Hailstorm");
    let event = PollEvent::Response { status: 200, body };
    match poll_cycle(&config, &event) {
        CycleOutcome::SkipDecode(e) => assert_eq!(e, DecodeError::UnknownCondition),
        other => panic!("expected a skipped cycle, got {:?}", other),
    }
}

#[test]
fn malformed_body_skips_cycle() {
    let config = celsius_config();
    let event = PollEvent::Response { status: 200, body: "{\"current\": ".to_string() };
    match poll_cycle(&config, &event) {
        CycleOutcome::SkipDecode(e) => assert_eq!(e, DecodeError::InvalidJson),
        other => panic!("expected a skipped cycle, got {:?}", other),
    }
}

#[test]
fn format_status_text_and_tooltip_shape() {
    let sample = WeatherSample {
        temp_c: "-3.0".to_string(),
        temp_f: "26.6".to_string(),
        condition: WeatherCondition::LightSnow,
    };
    let record = format_status(Unit::Celsius, &sample);
    assert_eq!(record.text, "-3.0\u{b0} C");
    assert_eq!(record.tooltip, format!("Current temperature: {}", record.text));
    assert_eq!(record.class, "weather");
    let record_f = format_status(Unit::Fahrenheit, &sample);
    assert_eq!(record_f.text, "26.6\u{b0} F");
    assert_eq!(record_f.tooltip, format!("Current temperature: {}", record_f.text));
}
