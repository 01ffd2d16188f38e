//! Repairs for malformed RFC 2822 date-time strings, and a parse that falls
//! back on those repairs when the strict parse fails.
//!
//! - `text`: character-level search, replacement and trimming.
//! - `time_field`: padding of the time-of-day fields.
//! - `repair`: removal of the weekday, abbreviation of the month name and
//!   repair of a `-0000` offset.
//! - `pipeline`: the four repairs in order, and the fallback parse.
//! - `laws`: properties proved of the repairs and the fallback parse.
pub mod laws;
pub mod pipeline;
pub mod repair;
pub mod text;
pub mod time_field;

pub use pipeline::{
    parse_from_rfc2822_with_fallback, sanitize_rfc822_like_date, DateTimeFields, ParseFailure,
};
pub use time_field::SanitizeError;
