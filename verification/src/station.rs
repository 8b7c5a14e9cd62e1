//! The weather station: raw serial frames, their decoding into readings,
//! and the reader that finds frames in the serial stream.
pub mod controller;
pub mod data;
pub mod raw;
