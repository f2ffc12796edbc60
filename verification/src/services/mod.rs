//! The two outbound clients: what they are asked, and how their answers are read.

pub mod chat_api;
pub mod chat_api_impl;
pub mod telegram;
pub mod telegram_api;
pub mod telegram_api_impl;
