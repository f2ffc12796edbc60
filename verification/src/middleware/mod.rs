//! What stands between a request and the pipeline.

pub mod auth;
