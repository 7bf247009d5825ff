//! Status generator for a status-bar weather widget.
//!
//! The library holds the verified logic of the poller: parsing the process
//! arguments into a configuration, decoding the weather API's JSON response,
//! mapping condition labels to display glyphs, and building the single-line
//! JSON status record that is written to standard output.  The surrounding
//! program (HTTP requests, the sleep loop, the streams) lives outside the
//! library and hands it plain values.

pub mod text;
pub mod unit;
pub mod condition;
pub mod config;
pub mod json;
pub mod weather;
pub mod record;
pub mod driver;
