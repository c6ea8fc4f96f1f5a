//! Verified core of a WiFi repeater firmware: the serial command line,
//! the configuration rules, the Wi-Fi and routing plans and the TCP MSS clamp.

pub mod command;
pub mod config;
pub mod input;
pub mod mss;
pub mod net;
pub mod parse;
pub mod text;
pub mod wifi;
