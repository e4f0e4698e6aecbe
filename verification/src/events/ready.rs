//! What the bot does once connected: greet on the console and register its
//! commands, `/ping` in the test server and `/note` globally.

use vstd::prelude::*;
use vstd::string::*;
use crate::commands::note::{self, note_command};
use crate::commands::ping::{self, ping_command};
use crate::model::{CommandSpec, CommandView};
use crate::text::{parse_u64, parsed_u64};

verus! {

/// Why the test server's id could not be had.
#[derive(PartialEq, Eq, Structural, Clone, Copy, Debug)]
pub enum GuildIdError {
    /// The variable holding it is not set.
    Missing,
    /// It is not an unsigned integer.
    Invalid,
    /// It is 0, which is no server's id.
    Zero,
}

/// What to register once connected, in the test server and globally.
pub struct ReadyPlan {
    /// The id of the server in which to register `guild_commands`; never 0.
    pub guild_id: u64,
    /// The commands to register in that server.
    pub guild_commands: Vec<CommandSpec>,
    /// The commands to register globally.
    pub global_commands: Vec<CommandSpec>,
}

/// The view of an optional `&str`.
pub open spec fn opt_view(var: Option<&str>) -> Option<Seq<char>> {
    match var {
        Some(s) => Some(s@),
        None => None,
    }
}

/// The test server's id, from the value of the variable that holds it: it
/// must be set, parse as a `u64`, and not be 0.
pub open spec fn guild_id_from(var: Option<Seq<char>>) -> Result<u64, GuildIdError> {
    match var {
        None => Err(GuildIdError::Missing),
        Some(s) => match parsed_u64(s) {
            Some(id) => if id == 0 {
                Err(GuildIdError::Zero)
            } else {
                Ok(id)
            },
            None => Err(GuildIdError::Invalid),
        },
    }
}

/// The line printed once connected as the bot user `bot_name`.
pub fn greeting(bot_name: &str) -> (line: String)
    ensures
        line@ == "Connected to Discord as "@ + bot_name@,
{
    let mut line = String::from_str("Connected to Discord as ");
    line.append(bot_name);
    line
}

/// The test server's id, from the value of the variable that holds it, or
/// why it cannot be had.
pub fn guild_id(var: Option<&str>) -> (r: Result<u64, GuildIdError>)
    ensures
        r == guild_id_from(opt_view(var)),
{
    match var {
        None => Err(GuildIdError::Missing),
        Some(s) => match parse_u64(s) {
            Some(id) => if id == 0 {
                Err(GuildIdError::Zero)
            } else {
                Ok(id)
            },
            None => Err(GuildIdError::Invalid),
        },
    }
}

/// What to register once connected, given the value of the variable holding
/// the test server's id: `/ping` in that server, `/note` globally. The value
/// must give a usable id (see [`guild_id`]); without one nothing is
/// registered.
pub fn handle(guild_id_var: Option<&str>) -> (plan: ReadyPlan)
    requires
        guild_id_from(opt_view(guild_id_var)) is Ok,
    ensures
        guild_id_from(opt_view(guild_id_var)) == Ok::<u64, GuildIdError>(plan.guild_id),
        plan.guild_id != 0,
        plan.guild_commands@.map_values(|c: CommandSpec| c@) == seq![ping_command()],
        plan.global_commands@.map_values(|c: CommandSpec| c@) == seq![note_command()],
{
    let id = match guild_id(guild_id_var) {
        Ok(id) => id,
        Err(_) => vstd::pervasive::unreached(),
    };
    let mut guild_commands: Vec<CommandSpec> = Vec::new();
    guild_commands.push(ping::register());
    let mut global_commands: Vec<CommandSpec> = Vec::new();
    global_commands.push(note::register());
    let plan = ReadyPlan { guild_id: id, guild_commands, global_commands };
    assert(plan.guild_commands@.map_values(|c: CommandSpec| c@) =~= seq![ping_command()]);
    assert(plan.global_commands@.map_values(|c: CommandSpec| c@) =~= seq![note_command()]);
    plan
}

} // verus!
