//! Presence and messaging hub: the per-connection session protocol, the
//! addressing rules of the internal bus, the rate limiters and the
//! cosmetic-entitlement store.

pub mod admin;
pub mod api;
pub mod app_state;
pub mod bitflags;
pub mod commands;
pub mod error;
pub mod limiter;
pub mod messages;
pub mod relay;
pub mod utils;
