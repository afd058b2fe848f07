//! Helpers around the hub: text cleaning, identities, metrics lines.

pub mod influx;
pub mod retrieve_cosmetics;
pub mod sanitize;
pub mod text;
pub mod uuid_to_username;
pub mod uuid_utils;
pub mod validate_session;

pub use influx::Influx;
