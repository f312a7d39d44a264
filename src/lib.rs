//! Reports on validating STAR text against a grammar engine's entry rule.
//!
//! The engine's outcome comes in as plain values; the library turns it into a
//! success message that names the matched rule and span, or into one of two
//! typed failures: a syntax error or an I/O error.

pub mod decimal;
pub mod laws;
pub mod report;
