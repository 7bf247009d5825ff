//! The status formatter and the per-cycle decision: what one poll cycle
//! does with the outcome of the HTTP attempt.  The surrounding program
//! performs the request and the sleep; this module decides, from plain
//! values, whether the cycle emits a record, is skipped, or is fatal.

use vstd::prelude::*;
use crate::config::Config;
use crate::unit::{Unit, unit_letter};
use crate::condition::{glyph_seq, condition_of_label};
use crate::weather::{WeatherSample, DecodeError, decode_weather, weather_fields};
use crate::json::{json_ok, is_number_seq};
use crate::record::{WaybarPayload, record_json};
use vstd::string::StringExecFns;

verus! {

/// The temperature text the configured unit selects from a sample.
pub open spec fn selected_temp(w: WeatherSample, u: Unit) -> Seq<char> {
    match u {
        Unit::Celsius => w.temp_c@,
        Unit::Fahrenheit => w.temp_f@,
    }
}

/// The `text` field: the temperature, a degree sign, a space and the unit
/// letter.
pub open spec fn status_text(temp: Seq<char>, u: Unit) -> Seq<char> {
    temp + "° "@ + unit_letter(u)
}

/// The `tooltip` field restates the text.
pub open spec fn status_tooltip(temp: Seq<char>, u: Unit) -> Seq<char> {
    "Current temperature: "@ + status_text(temp, u)
}

/// Builds the status record for a sample under the configured unit:
/// the selected temperature with its unit suffix, the fixed class
/// `weather`, the condition's glyph, and the tooltip restating the text.
pub fn format_status(unit: Unit, w: &WeatherSample) -> (r: WaybarPayload)
    ensures
        r.text@ == status_text(selected_temp(*w, unit), unit),
        r.class@ == "weather"@,
        r.alt@ == glyph_seq(w.condition),
        r.tooltip@ == status_tooltip(selected_temp(*w, unit), unit),
{
    let temp: &String = match unit {
        Unit::Celsius => &w.temp_c,
        Unit::Fahrenheit => &w.temp_f,
    };
    let letter = unit.letter();
    let text = temp.clone().concat("° ").concat(letter.as_str());
    let tooltip = String::from_str("Current temperature: ").concat(text.as_str());
    WaybarPayload {
        text,
        class: String::from_str("weather"),
        alt: w.condition.glyph(),
        tooltip,
    }
}

/// The status text always has the shape `<number>° <C|F>`, and the tooltip
/// always equals `Current temperature: ` followed by the text, for every
/// well-formed sample and both units.
pub proof fn lemma_status_shape(w: WeatherSample, u: Unit)
    requires
        w.wf(),
    ensures
        is_number_seq(selected_temp(w, u)),
        status_text(selected_temp(w, u), u) == selected_temp(w, u) + "° "@ + unit_letter(u),
        unit_letter(u) == "C"@ || unit_letter(u) == "F"@,
        status_tooltip(selected_temp(w, u), u) == "Current temperature: "@ + status_text(
            selected_temp(w, u),
            u,
        ),
{
}

/// What the HTTP attempt of one cycle came to, as plain values.
#[derive(Debug)]
pub enum PollEvent {
    /// The request could not be built or executed.
    TransportError,
    /// A response arrived, with its status code and body text.
    Response { status: u16, body: String },
}

/// What one poll cycle does.
#[derive(Debug)]
pub enum CycleOutcome {
    /// Write this line to standard output.
    Emit(String),
    /// Report the transport failure and skip the cycle; the loop goes on.
    SkipTransport,
    /// Report the decode failure and skip the cycle; the loop goes on.
    SkipDecode(DecodeError),
    /// A non-success HTTP status ends the process, reporting the status.
    Fatal(u16),
}

/// Decides one poll cycle from the configuration and the attempt's
/// outcome: a transport error skips the cycle, a non-200 status is fatal,
/// and a 200 body is decoded and formatted into the emitted record, each
/// decode failure skipping the cycle with its reason.
pub fn poll_cycle(config: &Config, event: &PollEvent) -> (r: CycleOutcome)
    ensures
        match *event {
            PollEvent::TransportError => r is SkipTransport,
            PollEvent::Response { status, body } => {
                if status != 200 {
                    r == CycleOutcome::Fatal(status)
                } else if !json_ok(body@) {
                    r == CycleOutcome::SkipDecode(DecodeError::InvalidJson)
                } else {
                    match weather_fields(body@) {
                        None => r == CycleOutcome::SkipDecode(DecodeError::MissingField),
                        Some(f) => match condition_of_label(f.2) {
                            None => r == CycleOutcome::SkipDecode(DecodeError::UnknownCondition),
                            Some(cond) => {
                                let temp = match config.temp_unit {
                                    Unit::Celsius => f.0,
                                    Unit::Fahrenheit => f.1,
                                };
                                r matches CycleOutcome::Emit(line) && line@ == record_json(
                                    status_text(temp, config.temp_unit),
                                    glyph_seq(cond),
                                    status_tooltip(temp, config.temp_unit),
                                    "weather"@,
                                )
                            },
                        },
                    }
                }
            },
        },
{
    match event {
        PollEvent::TransportError => CycleOutcome::SkipTransport,
        PollEvent::Response { status, body } => {
            if *status != 200 {
                CycleOutcome::Fatal(*status)
            } else {
                match decode_weather(body.as_str()) {
                    Ok(w) => {
                        let payload = format_status(config.temp_unit, &w);
                        CycleOutcome::Emit(payload.encode())
                    },
                    Err(e) => CycleOutcome::SkipDecode(e),
                }
            }
        },
    }
}

} // verus!
