//! Configuration, connection settings and request-handling rules of a small
//! newsletter back end, with their contracts proved by Verus.

pub mod environment;
pub mod text;
pub mod secret;
pub mod settings;
pub mod postgres;
pub mod configuration;
pub mod cli;
pub mod error;
pub mod routes;
