//! The bodies that the relay receives and sends.

pub mod chat;
pub mod telegram;
