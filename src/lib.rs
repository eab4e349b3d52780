//! GPIO pins addressed by symbolic name.
//!
//! `mapping` resolves a pin name to a device file path through a JSON
//! mapping document; `gpio` keeps the state of one pin resource and turns the
//! status codes reported by the native driver into results.

pub mod gpio;
pub mod mapping;
