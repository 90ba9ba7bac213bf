//! Weather cache refresh logic: the staleness policy, the cache slots, the
//! per-source refresh decisions, and the records they carry.

pub mod cache;
pub mod climacell;
pub mod error;
pub mod forecast_db;
pub mod history;
pub mod orchestrator;
pub mod reading;
pub mod staleness;
pub mod text;
pub mod timestamp;
pub mod web;
pub mod wunder;
