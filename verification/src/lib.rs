//! Runtime extension of a host process by independently compiled modules:
//! manifest decoding, the loading protocol, the module registry and its
//! two-phase shutdown, together with the host's configuration record.

pub mod common;
pub mod config;
pub mod error;
pub mod graphql;
pub mod laws;
pub mod manifest;
pub mod model;
pub mod paths;
pub mod plugins;
pub mod protocol;
pub mod routes;
