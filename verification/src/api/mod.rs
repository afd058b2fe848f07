//! The client-facing operations of the hub.

pub mod broadcast;
pub mod cosmetics;
pub mod metrics;
pub mod ws;
