//! Verified core of a weather station monitor: the station's serial frame
//! format and its decoding, the frame reader's decisions, channel selection
//! for the access point, HTTP routing, ANSI colouring and random values.
pub mod color;
pub mod network;
pub mod random;
pub mod routes;
pub mod station;
