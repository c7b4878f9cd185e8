//! A small service-status library: uptime arithmetic against a fixed start
//! instant, start-up configuration, host and request facts with their
//! defaults, and the JSON documents served by the root and health routes.

pub mod text;
pub mod config;
pub mod info;
pub mod clock;
pub mod json;
pub mod routes;
