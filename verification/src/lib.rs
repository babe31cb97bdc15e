//! Verified core of the example service: the record and message types, the
//! conversions between them, the decisions that each service call makes
//! around its database access, and the builders of the core and the server.

pub mod ids;
pub mod status;
pub mod proto;
pub mod entities;
pub mod conversion;
pub mod persistence;
pub mod handlers;
pub mod service_core;
pub mod server;
