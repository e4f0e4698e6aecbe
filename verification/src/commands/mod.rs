//! The slash commands the bot offers.

pub mod note;
pub mod note_laws;
pub mod note_store;
pub mod ping;
