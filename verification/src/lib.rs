//! A passthrough proxy in front of Synology Video Station.
//!
//! The player asks Video Station for a remuxed stream. Where Video Station refuses, the proxy
//! opens the same file in raw mode and hands the raw stream to the player as if it were a
//! remuxed one; requests about that stream are then sent on in raw format. Everything else goes
//! to Video Station, and comes back, as it is.
//!
//! The decisions are here: [`proxy::handle`] and [`proxy::resume`] say what is to be done, and
//! the program around the library does it. [`laws`] holds what is true of them together.

pub mod headers;
pub mod json;
pub mod laws;
pub mod message;
pub mod params;
pub mod proxy;
pub mod selftest;
pub mod streams;
pub mod text;
