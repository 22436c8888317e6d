//! A catalog of the seventeen first-level administrative regions of the
//! Philippines.
//!
//! Each region carries four canonical strings (a short machine code, a
//! display abbreviation, an English name, and a combined full name), and
//! free-form text can be parsed back into a region through a normalizing,
//! alias-based parser.

pub mod laws;
pub mod norm;
pub mod parse;
pub mod region;

pub use region::Region;
