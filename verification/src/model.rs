//! The values the bot reads from Discord and the messages and command
//! definitions it hands back, as plain data, each with a view over `Seq<char>`.

use vstd::prelude::*;

verus! {

/// The view of an optional string.
pub open spec fn opt_str(o: Option<String>) -> Option<Seq<char>> {
    match o {
        Some(s) => Some(s@),
        None => None,
    }
}

/// A Discord user, as far as the bot reads one.
pub struct DiscordUser {
    pub name: String,
    pub global_name: Option<String>,
}

pub struct UserView {
    pub name: Seq<char>,
    pub global_name: Option<Seq<char>>,
}

impl View for DiscordUser {
    type V = UserView;

    open spec fn view(&self) -> UserView {
        UserView { name: self.name@, global_name: opt_str(self.global_name) }
    }
}

impl UserView {
    /// The name shown for a user: the global display name when set, else the
    /// user name.
    pub open spec fn display_name(self) -> Seq<char> {
        match self.global_name {
            Some(g) => g,
            None => self.name,
        }
    }
}

impl DiscordUser {
    /// The name shown for this user: the global display name when set, else
    /// the user name.
    pub fn display_name(&self) -> (res: &str)
        ensures
            res@ == self@.display_name(),
    {
        match &self.global_name {
            Some(g) => g.as_str(),
            None => self.name.as_str(),
        }
    }
}

/// The user who ran a command, and the server it was run in, if any.
pub struct Invoker {
    pub user_id: u64,
    pub guild_id: Option<u64>,
    pub user: DiscordUser,
}

pub struct InvokerView {
    pub user_id: u64,
    pub guild_id: Option<u64>,
    pub user: UserView,
}

impl View for Invoker {
    type V = InvokerView;

    open spec fn view(&self) -> InvokerView {
        InvokerView { user_id: self.user_id, guild_id: self.guild_id, user: self.user@ }
    }
}

/// The value given to an option of a subcommand.
pub enum ArgValue {
    Str(String),
    Bool(bool),
    /// Any other kind of value (integer, user, channel, ...).
    Other,
}

pub enum ArgValueView {
    Str(Seq<char>),
    Bool(bool),
    Other,
}

/// An option given to a subcommand: its name and value.
pub struct Arg {
    pub name: String,
    pub value: ArgValue,
}

pub struct ArgView {
    pub name: Seq<char>,
    pub value: ArgValueView,
}

impl View for Arg {
    type V = ArgView;

    open spec fn view(&self) -> ArgView {
        ArgView {
            name: self.name@,
            value: match self.value {
                ArgValue::Str(s) => ArgValueView::Str(s@),
                ArgValue::Bool(b) => ArgValueView::Bool(b),
                ArgValue::Other => ArgValueView::Other,
            },
        }
    }
}

/// The views of a list of subcommand options.
pub open spec fn args_view(args: Seq<Arg>) -> Seq<ArgView> {
    args.map_values(|a: Arg| a@)
}

/// The value of a top-level command option.
pub enum OptionValue {
    /// A subcommand, with the options given to it.
    SubCommand(Vec<Arg>),
    /// Any other kind of value.
    Other,
}

pub enum OptionValueView {
    SubCommand(Seq<ArgView>),
    Other,
}

/// A top-level option of a command: its name and value.
pub struct CommandOption {
    pub name: String,
    pub value: OptionValue,
}

pub struct CommandOptionView {
    pub name: Seq<char>,
    pub value: OptionValueView,
}

impl View for CommandOption {
    type V = CommandOptionView;

    open spec fn view(&self) -> CommandOptionView {
        CommandOptionView {
            name: self.name@,
            value: match self.value {
                OptionValue::SubCommand(args) => OptionValueView::SubCommand(args_view(args@)),
                OptionValue::Other => OptionValueView::Other,
            },
        }
    }
}

/// The views of a list of top-level command options.
pub open spec fn options_view(opts: Seq<CommandOption>) -> Seq<CommandOptionView> {
    opts.map_values(|o: CommandOption| o@)
}

/// An embed with a title, a colour and one field.
pub struct Embed {
    pub title: String,
    pub color: u32,
    pub field_name: String,
    pub field_value: String,
    pub field_inline: bool,
}

pub struct EmbedView {
    pub title: Seq<char>,
    pub color: u32,
    pub field_name: Seq<char>,
    pub field_value: Seq<char>,
    pub field_inline: bool,
}

impl View for Embed {
    type V = EmbedView;

    open spec fn view(&self) -> EmbedView {
        EmbedView {
            title: self.title@,
            color: self.color,
            field_name: self.field_name@,
            field_value: self.field_value@,
            field_inline: self.field_inline,
        }
    }
}

/// A follow-up message answering a command. `ephemeral` is `None` where the
/// flag is left unset, which shows the message to everyone.
pub struct Followup {
    pub content: Option<String>,
    pub ephemeral: Option<bool>,
    pub embed: Option<Embed>,
}

pub struct FollowupView {
    pub content: Option<Seq<char>>,
    pub ephemeral: Option<bool>,
    pub embed: Option<EmbedView>,
}

impl View for Followup {
    type V = FollowupView;

    open spec fn view(&self) -> FollowupView {
        FollowupView {
            content: opt_str(self.content),
            ephemeral: self.ephemeral,
            embed: match self.embed {
                Some(e) => Some(e@),
                None => None,
            },
        }
    }
}

/// A follow-up holding only a text.
pub open spec fn text_followup(text: Seq<char>, ephemeral: Option<bool>) -> FollowupView {
    FollowupView { content: Some(text), ephemeral, embed: None }
}

/// A follow-up holding only `text`, with the ephemeral flag as given.
pub fn text_reply(text: String, ephemeral: Option<bool>) -> (f: Followup)
    ensures
        f@ == text_followup(text@, ephemeral),
{
    Followup { content: Some(text), ephemeral, embed: None }
}

/// Where a command can be installed.
#[derive(PartialEq, Eq, Structural, Clone, Copy, Debug)]
pub enum Installation {
    Guild,
    User,
}

/// The kind of a subcommand parameter.
#[derive(PartialEq, Eq, Structural, Clone, Copy, Debug)]
pub enum ParamKind {
    String,
    Boolean,
}

/// A fixed choice offered for a string parameter: its label and its value.
pub struct Choice {
    pub name: String,
    pub value: String,
}

/// A parameter of a subcommand.
pub struct ParamSpec {
    pub kind: ParamKind,
    pub name: String,
    pub description: String,
    pub required: bool,
    pub choices: Vec<Choice>,
}

/// A subcommand of a slash command.
pub struct SubcommandSpec {
    pub name: String,
    pub description: String,
    pub params: Vec<ParamSpec>,
}

/// The definition of a slash command, as registered with Discord.
pub struct CommandSpec {
    pub name: String,
    pub description: String,
    pub installations: Vec<Installation>,
    pub subcommands: Vec<SubcommandSpec>,
}

pub struct ChoiceView {
    pub name: Seq<char>,
    pub value: Seq<char>,
}

pub struct ParamView {
    pub kind: ParamKind,
    pub name: Seq<char>,
    pub description: Seq<char>,
    pub required: bool,
    pub choices: Seq<ChoiceView>,
}

pub struct SubcommandView {
    pub name: Seq<char>,
    pub description: Seq<char>,
    pub params: Seq<ParamView>,
}

pub struct CommandView {
    pub name: Seq<char>,
    pub description: Seq<char>,
    pub installations: Seq<Installation>,
    pub subcommands: Seq<SubcommandView>,
}

impl View for Choice {
    type V = ChoiceView;

    open spec fn view(&self) -> ChoiceView {
        ChoiceView { name: self.name@, value: self.value@ }
    }
}

impl View for ParamSpec {
    type V = ParamView;

    open spec fn view(&self) -> ParamView {
        ParamView {
            kind: self.kind,
            name: self.name@,
            description: self.description@,
            required: self.required,
            choices: self.choices@.map_values(|c: Choice| c@),
        }
    }
}

impl View for SubcommandSpec {
    type V = SubcommandView;

    open spec fn view(&self) -> SubcommandView {
        SubcommandView {
            name: self.name@,
            description: self.description@,
            params: self.params@.map_values(|p: ParamSpec| p@),
        }
    }
}

impl View for CommandSpec {
    type V = CommandView;

    open spec fn view(&self) -> CommandView {
        CommandView {
            name: self.name@,
            description: self.description@,
            installations: self.installations@,
            subcommands: self.subcommands@.map_values(|s: SubcommandSpec| s@),
        }
    }
}

} // verus!
