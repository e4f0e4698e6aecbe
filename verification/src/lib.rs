//! Decision logic of a Discord notes bot: the `/note` and `/ping` slash
//! commands, the message and ready handlers, and the text they reply with.
//! The Discord gateway, HTTP and the Postgres store are driven by the program
//! around this library; it hands events in and performs the actions that
//! come out.

pub mod commands;
pub mod events;
pub mod model;
pub mod text;

use vstd::prelude::*;

verus! {

} // verus!
