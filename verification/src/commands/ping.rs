//! The `/ping` command.

use vstd::prelude::*;
use vstd::string::*;
use crate::model::{
    text_followup, text_reply, CommandOption, CommandSpec, CommandView, Followup, Installation,
    SubcommandSpec, SubcommandView,
};

verus! {

/// The definition of `/ping`: no options, default installation.
pub open spec fn ping_command() -> CommandView {
    CommandView {
        name: "ping"@,
        description: "A ping command"@,
        installations: Seq::empty(),
        subcommands: Seq::empty(),
    }
}

/// The definition of the `/ping` command.
pub fn register() -> (cmd: CommandSpec)
    ensures
        cmd@ == ping_command(),
{
    let installations: Vec<Installation> = Vec::new();
    let subcommands: Vec<SubcommandSpec> = Vec::new();
    let cmd = CommandSpec {
        name: String::from_str("ping"),
        description: String::from_str("A ping command"),
        installations,
        subcommands,
    };
    assert(cmd@.installations =~= Seq::<Installation>::empty());
    assert(cmd@.subcommands =~= Seq::<SubcommandView>::empty());
    cmd
}

/// The answer to `/ping`, whatever its options: `Pong!`, shown to everyone.
pub fn execute(_options: &Vec<CommandOption>) -> (f: Followup)
    ensures
        f@ == text_followup("Pong!"@, None),
{
    text_reply(String::from_str("Pong!"), None)
}

} // verus!
