//! A small HTTP translation service: request validation, the bounded worker
//! pool that runs the blocking translation call, and the mapping of each
//! outcome to an HTTP status and JSON body.

pub mod config;
pub mod pool;
pub mod request;
pub mod reply;
pub mod handler;
