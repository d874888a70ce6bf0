//! Message routing for biometric attendance units that talk to the service over MQTT.
//!
//! A unit publishes on `<unit>/<command>`; the service answers on `<unit>`.
//! This crate holds the decisions of that exchange: how topics are read,
//! which store commands and database statements each request causes,
//! and which acknowledgement goes back to the unit.

pub mod models;
pub mod topic;
pub mod text;
pub mod store;
pub mod db;
pub mod reply;
pub mod handler;
pub mod client;
pub mod port;
pub mod laws;
