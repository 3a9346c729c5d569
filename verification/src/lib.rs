//! A line-based chat relay: message records and their wire form, the bounded
//! replay history, the broadcast hub, and the per-connection protocol machine.

pub mod text;
pub mod record;
pub mod wire;
pub mod clock;
pub mod hub;
pub mod connection;
pub mod history;
pub mod listener;
pub mod client;
pub mod session;
