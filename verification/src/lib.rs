//! Core logic of a small temperature-sensor service: normalizing free-form
//! room names, resolving (location, sensor id) pairs against fixed tables,
//! and assembling the metadata of a reading.

pub mod location;
pub mod reading;
pub mod resolve;
