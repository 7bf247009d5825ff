//! Tests for the status-record codec: exact serialized form, the
//! round trip, and a cross-check against an independent JSON parser.

use waybar_weather::record::{WaybarPayload, decode_status};

fn payload(text: &str, class: &str, alt: &str, tooltip: &str) -> WaybarPayload {
    WaybarPayload {
        text: text.to_string(),
        class: class.to_string(),
        alt: alt.to_string(),
        tooltip: tooltip.to_string(),
    }
}

#[test]
fn encode_produces_the_exact_line() {
    let p = payload("21.5\u{b0} C", "weather", "*", "Current temperature: 21.5\u{b0} C");
    assert_eq!(
        p.encode(),
        "{\"text\":\"21.5\u{b0} C\",\"alt\":\"*\",\"tooltip\":\"Current temperature: 21.5\u{b0} C\",\"class\":\"weather\"}"
    );
}

#[test]
fn encode_escapes_quotes_backslashes_and_controls() {
    let p = payload("a\"b", "we\\ather", "x", "line\nbreak\ttab");
    assert_eq!(
        p.encode(),
        "{\"text\":\"a\\\"b\",\"alt\":\"x\",\"tooltip\":\"line\\u000abreak\\u0009tab\",\"class\":\"we\\\\ather\"}"
    );
}

#[test]
fn decoding_an_encoded_record_restores_the_fields() {
    let p = payload("7.0\u{b0} F", "weather", "\u{e30d}", "Current temperature: 7.0\u{b0} F");
    let line = p.encode();
    let back = decode_status(&line).expect("the encoded record must decode");
    assert_eq!(back.text, p.text);
    assert_eq!(back.class, p.class);
    assert_eq!(back.alt, p.alt);
    assert_eq!(back.tooltip, p.tooltip);
}

#[test]
fn round_trip_with_special_characters() {
    let p = payload("a\"b\\c", "we\nather", "\u{1}\u{1f}", "quote \" and \\ and tab\t");
    let line = p.encode();
    let back = decode_status(&line).expect("the encoded record must decode");
    assert_eq!(back.text, p.text);
    assert_eq!(back.class, p.class);
    assert_eq!(back.alt, p.alt);
    assert_eq!(back.tooltip, p.tooltip);
}

#[test]
fn decode_refuses_other_text() {
    assert!(decode_status("").is_none());
    assert!(decode_status("{}").is_none());
    assert!(decode_status("{\"text\":\"x\"}").is_none());
    let p = payload("1", "2", "3", "4");
    let line = p.encode();
    assert!(decode_status(&line[..line.len() - 1]).is_none());
}

#[test]
fn encoded_record_parses_as_json_elsewhere() {
    let p = payload("21.5\u{b0} C", "weather", "\u{e30d}", "Current temperature: 21.5\u{b0} C");
    let line = p.encode();
    let v: serde_json::Value = serde_json::from_str(&line).expect("valid JSON");
    assert_eq!(v["text"].as_str().unwrap(), p.text);
    assert_eq!(v["class"].as_str().unwrap(), p.class);
    assert_eq!(v["alt"].as_str().unwrap(), p.alt);
    assert_eq!(v["tooltip"].as_str().unwrap(), p.tooltip);
}
