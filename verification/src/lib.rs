//! Core of a chat time-conversion pipeline.
//!
//! The library recognizes natural-language time-of-day mentions in message
//! text, normalizes them through a canonical clock-time representation,
//! anchors them to the author's local calendar date to obtain absolute UTC
//! instants, and renders those instants in a fixed set of destination
//! timezones.  A per-user role cache supplies the author's timezone
//! context.  Transport, configuration loading and process wiring live
//! outside the library.

pub mod config;
pub mod current_time_extractor;
pub mod dynamic_time_extractor;
pub mod extractor;
pub mod fixed_time_extractor;
pub mod message_handler;
pub mod pattern_match;
pub mod text;
pub mod time_components;
pub mod time_extractor_context;
pub mod time_lift;
pub mod user_roles;
pub mod word_scan;
pub mod zones;
