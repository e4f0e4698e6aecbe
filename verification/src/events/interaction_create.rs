//! Routing of slash commands to their handlers.

use vstd::prelude::*;
use vstd::string::*;
use crate::commands::note::{self, spec_execute, Transition};
use crate::commands::ping;
use crate::model::{options_view, text_followup, text_reply, CommandOption, Followup, Invoker};
use crate::text::str_eq;

verus! {

/// How a slash command is answered.
pub enum Dispatch {
    /// Run `/note`, starting from this transition.
    Note(Transition),
    /// Answer at once with this follow-up.
    Reply(Followup),
}

/// How the slash command `command_name`, with these options, run by this
/// invoker, is answered: `note` and `ping` go to their commands, any other
/// name gets `ERROR: Command not implemented`.
pub fn handle(command_name: &str, options: &Vec<CommandOption>, invoker: &Invoker) -> (d: Dispatch)
    ensures
        command_name@ == "note"@ ==> (d matches Dispatch::Note(t) && t@ == spec_execute(
            options_view(options@),
            invoker@,
        )),
        command_name@ == "ping"@ ==> (d matches Dispatch::Reply(f) && f@ == text_followup(
            "Pong!"@,
            None,
        )),
        command_name@ != "note"@ && command_name@ != "ping"@ ==> (d matches Dispatch::Reply(f)
            && f@ == text_followup("ERROR: Command not implemented"@, None)),
{
    proof {
        reveal_strlit("note");
        reveal_strlit("ping");
        assert("note"@[0] != "ping"@[0]);
    }
    if str_eq(command_name, "note") {
        Dispatch::Note(note::execute(options, invoker))
    } else if str_eq(command_name, "ping") {
        Dispatch::Reply(ping::execute(options))
    } else {
        Dispatch::Reply(text_reply(String::from_str("ERROR: Command not implemented"), None))
    }
}

} // verus!
