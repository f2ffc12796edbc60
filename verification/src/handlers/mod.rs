//! The two routes, each as one call that runs its pipeline to the answer.

pub mod chat;
pub mod telegram;
