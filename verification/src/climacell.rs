//! The forecast provider's vocabulary and records.

pub mod models;
pub mod moon_phase;
pub mod precipitation_type;
pub mod weather_code;
pub mod webmodels;
