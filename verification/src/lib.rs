//! Verified core of the AeroWAN mesh daemon and its terminal client.

pub mod api;
pub mod chat;
pub mod config;
pub mod identity;
pub mod interfaces;
pub mod json;
pub mod laws;
pub mod screen;
pub mod text;
pub mod transport;
pub mod tui;
