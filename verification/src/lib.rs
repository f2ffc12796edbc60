//! A webhook relay between a messaging platform and a language-model
//! completion service: the decisions of the request pipeline, each with a
//! contract that Verus checks.

pub mod config;
pub mod handlers;
pub mod json;
pub mod laws;
pub mod middleware;
pub mod models;
pub mod pipeline;
pub mod reply;
pub mod services;
pub mod text;
