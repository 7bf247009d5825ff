//! The response decoder: reads the weather API's JSON body and extracts the
//! one sample the status line needs — the two temperature texts and the
//! condition label, which must be one of the fixed set.

use vstd::prelude::*;
use crate::condition::{WeatherCondition, condition_of_label};
use crate::json::{
    json_ok, json_ok_x, obj_body_at, obj_body_at_x, find_member, member_pos, number_at,
    number_at_x, string_at, string_at_x, is_number_seq,
};
use crate::text::{chars_of, string_of};

verus! {

/// One poll's decoded weather sample.  The temperatures are kept as the raw
/// number texts of the response, so the output reproduces the API's own
/// representation.
#[derive(Debug)]
pub struct WeatherSample {
    pub temp_c: String,
    pub temp_f: String,
    pub condition: WeatherCondition,
}

impl WeatherSample {
    /// Both temperature fields hold well-formed number texts.
    pub open spec fn wf(self) -> bool {
        is_number_seq(self.temp_c@) && is_number_seq(self.temp_f@)
    }
}

/// Why decoding a response body failed.
#[derive(Clone, Copy, PartialEq, Eq, Structural, Debug)]
pub enum DecodeError {
    /// The body is not a JSON text of the grammar.
    InvalidJson,
    /// The body lacks `current.temp_c`, `current.temp_f` or
    /// `current.condition.text` in the expected shape.
    MissingField,
    /// The condition text is not one of the fixed labels.
    UnknownCondition,
}

/// The three fields of interest in a response body: the raw `temp_c` text,
/// the raw `temp_f` text and the decoded `condition.text` label, all under
/// the top-level `current` object.
pub open spec fn weather_fields(s: Seq<char>) -> Option<(Seq<char>, Seq<char>, Seq<char>)> {
    match obj_body_at(s, 0) {
        Some(b0) => match find_member(s, b0, "current"@) {
            Some(pc) => match obj_body_at(s, pc) {
                Some(b1) => match find_member(s, b1, "temp_c"@) {
                    Some(p1) => match number_at(s, p1) {
                        Some(tc) => match find_member(s, b1, "temp_f"@) {
                            Some(p2) => match number_at(s, p2) {
                                Some(tf) => match find_member(s, b1, "condition"@) {
                                    Some(p3) => match obj_body_at(s, p3) {
                                        Some(b2) => match find_member(s, b2, "text"@) {
                                            Some(p4) => match string_at(s, p4) {
                                                Some(txt) => Some((tc, tf, txt)),
                                                None => None,
                                            },
                                            None => None,
                                        },
                                        None => None,
                                    },
                                    None => None,
                                },
                                None => None,
                            },
                            None => None,
                        },
                        None => None,
                    },
                    None => None,
                },
                None => None,
            },
            None => None,
        },
        None => None,
    }
}

/// Decodes a response body into a weather sample: the body must be one JSON
/// value of the grammar, hold the three fields, and carry a recognized
/// condition label.  Each error names exactly what was wrong.
pub fn decode_weather(body: &str) -> (r: Result<WeatherSample, DecodeError>)
    ensures
        match r {
            Ok(w) => json_ok(body@) && w.wf() && (match weather_fields(body@) {
                Some(f) => w.temp_c@ == f.0 && w.temp_f@ == f.1 && condition_of_label(f.2)
                    == Some(w.condition),
                None => false,
            }),
            Err(DecodeError::InvalidJson) => !json_ok(body@),
            Err(DecodeError::MissingField) => json_ok(body@) && weather_fields(body@) is None,
            Err(DecodeError::UnknownCondition) => json_ok(body@) && (match weather_fields(body@) {
                Some(f) => condition_of_label(f.2) is None,
                None => false,
            }),
        },
{
    let v = chars_of(body);
    if !json_ok_x(&v) {
        return Err(DecodeError::InvalidJson);
    }
    let b0 = match obj_body_at_x(&v, 0) {
        Some(b) => b,
        None => {
            return Err(DecodeError::MissingField);
        },
    };
    let pc = match member_pos(&v, b0, &chars_of("current")) {
        Some(p) => p,
        None => {
            return Err(DecodeError::MissingField);
        },
    };
    let b1 = match obj_body_at_x(&v, pc) {
        Some(b) => b,
        None => {
            return Err(DecodeError::MissingField);
        },
    };
    let p1 = match member_pos(&v, b1, &chars_of("temp_c")) {
        Some(p) => p,
        None => {
            return Err(DecodeError::MissingField);
        },
    };
    let tc = match number_at_x(&v, p1) {
        Some(t) => t,
        None => {
            return Err(DecodeError::MissingField);
        },
    };
    let p2 = match member_pos(&v, b1, &chars_of("temp_f")) {
        Some(p) => p,
        None => {
            return Err(DecodeError::MissingField);
        },
    };
    let tf = match number_at_x(&v, p2) {
        Some(t) => t,
        None => {
            return Err(DecodeError::MissingField);
        },
    };
    let p3 = match member_pos(&v, b1, &chars_of("condition")) {
        Some(p) => p,
        None => {
            return Err(DecodeError::MissingField);
        },
    };
    let b2 = match obj_body_at_x(&v, p3) {
        Some(b) => b,
        None => {
            return Err(DecodeError::MissingField);
        },
    };
    let p4 = match member_pos(&v, b2, &chars_of("text")) {
        Some(p) => p,
        None => {
            return Err(DecodeError::MissingField);
        },
    };
    let txt = match string_at_x(&v, p4) {
        Some(t) => t,
        None => {
            return Err(DecodeError::MissingField);
        },
    };
    match WeatherCondition::from_label(&txt) {
        Some(c) => Ok(
            WeatherSample { temp_c: string_of(&tc), temp_f: string_of(&tf), condition: c },
        ),
        None => Err(DecodeError::UnknownCondition),
    }
}

} // verus!
