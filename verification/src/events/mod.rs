//! What the bot does on gateway events.

pub mod interaction_create;
pub mod message;
pub mod ready;
