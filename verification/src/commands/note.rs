//! The `/note` command: create, show, list and delete notes kept per user or
//! per server.
//!
//! Running the command alternates between decisions and outside work (a
//! database query, a user lookup), so it is a state machine: [`execute`]
//! reads the command's options and gives the first state and action; the
//! caller performs the action and hands its outcome to [`step`] as an event,
//! until the action is a reply.

use vstd::prelude::*;
use vstd::string::*;
use crate::model::{
    Choice, ChoiceView, CommandSpec, CommandView, Installation, ParamKind, ParamSpec, ParamView,
    SubcommandSpec, SubcommandView, opt_str, text_followup, text_reply, ArgValue, ArgValueView, ArgView, Arg, args_view,
    CommandOption, CommandOptionView, DiscordUser, Embed, EmbedView, Followup, FollowupView,
    Invoker, InvokerView, OptionValue, OptionValueView, UserView, options_view,
};
use crate::text::str_eq;

verus! {

/// A stored note: its name, text, the id of the user who created it, and the
/// id (of a server or of a user) whose notes it belongs to.
pub struct NoteRecord {
    pub name: String,
    pub note: String,
    pub owner: i64,
    pub context: i64,
}

pub struct NoteRecordView {
    pub name: Seq<char>,
    pub note: Seq<char>,
    pub owner: i64,
    pub context: i64,
}

impl View for NoteRecord {
    type V = NoteRecordView;

    open spec fn view(&self) -> NoteRecordView {
        NoteRecordView { name: self.name@, note: self.note@, owner: self.owner, context: self.context }
    }
}

/// Where a run of the command stands: what it waits for.
pub enum NoteState {
    /// The command has been answered.
    Finished,
    /// `create`: waiting for the lookup of the note's name.
    CreateLookup { name: Option<String>, note: Option<String>, context: u64 },
    /// `create`: the note exists; waiting for its owner's user record.
    CreateOwner { name: Option<String>, record: NoteRecord },
    /// `create`: waiting for the insert.
    CreateInsert { name: Option<String> },
    /// `get`: waiting for the lookup.
    GetLookup { name: Option<String>, hidenote: Option<bool> },
    /// `get`: the note exists; waiting for its owner's user record.
    GetOwner { record: NoteRecord, hidenote: Option<bool> },
    /// `list`: waiting for the names of the invoker's notes.
    Listing { context_text: String },
    /// `delete`: waiting for the lookup.
    DeleteLookup { name: Option<String>, context: u64 },
    /// `delete`: the invoker owns the note; waiting for the delete.
    DeleteExec { name: Option<String> },
}

pub enum NoteStateView {
    Finished,
    CreateLookup { name: Option<Seq<char>>, note: Option<Seq<char>>, context: u64 },
    CreateOwner { name: Option<Seq<char>>, record: NoteRecordView },
    CreateInsert { name: Option<Seq<char>> },
    GetLookup { name: Option<Seq<char>>, hidenote: Option<bool> },
    GetOwner { record: NoteRecordView, hidenote: Option<bool> },
    Listing { context_text: Seq<char> },
    DeleteLookup { name: Option<Seq<char>>, context: u64 },
    DeleteExec { name: Option<Seq<char>> },
}

impl View for NoteState {
    type V = NoteStateView;

    open spec fn view(&self) -> NoteStateView {
        match self {
            NoteState::Finished => NoteStateView::Finished,
            NoteState::CreateLookup { name, note, context } => NoteStateView::CreateLookup {
                name: opt_str(*name),
                note: opt_str(*note),
                context: *context,
            },
            NoteState::CreateOwner { name, record } => NoteStateView::CreateOwner {
                name: opt_str(*name),
                record: record@,
            },
            NoteState::CreateInsert { name } => NoteStateView::CreateInsert { name: opt_str(*name) },
            NoteState::GetLookup { name, hidenote } => NoteStateView::GetLookup {
                name: opt_str(*name),
                hidenote: *hidenote,
            },
            NoteState::GetOwner { record, hidenote } => NoteStateView::GetOwner {
                record: record@,
                hidenote: *hidenote,
            },
            NoteState::Listing { context_text } => NoteStateView::Listing {
                context_text: context_text@,
            },
            NoteState::DeleteLookup { name, context } => NoteStateView::DeleteLookup {
                name: opt_str(*name),
                context: *context,
            },
            NoteState::DeleteExec { name } => NoteStateView::DeleteExec { name: opt_str(*name) },
        }
    }
}

/// The outcome of an action, handed back to [`step`].
pub enum NoteEvent {
    /// A lookup found this note.
    Found(NoteRecord),
    /// A lookup found no note.
    Missing,
    /// The query failed.
    Failed,
    /// An insert or a delete succeeded.
    Done,
    /// The names of the listed notes, in the order the query gave them.
    Names(Vec<String>),
    /// The user record that was asked for.
    User(DiscordUser),
}

pub enum NoteEventView {
    Found(NoteRecordView),
    Missing,
    Failed,
    Done,
    Names(Seq<Seq<char>>),
    User(UserView),
}

/// The views of a list of strings.
pub open spec fn strs_view(v: Seq<String>) -> Seq<Seq<char>> {
    v.map_values(|s: String| s@)
}

impl View for NoteEvent {
    type V = NoteEventView;

    open spec fn view(&self) -> NoteEventView {
        match self {
            NoteEvent::Found(r) => NoteEventView::Found(r@),
            NoteEvent::Missing => NoteEventView::Missing,
            NoteEvent::Failed => NoteEventView::Failed,
            NoteEvent::Done => NoteEventView::Done,
            NoteEvent::Names(v) => NoteEventView::Names(strs_view(v@)),
            NoteEvent::User(u) => NoteEventView::User(u@),
        }
    }
}

/// What the caller is to do next.
pub enum NoteAction {
    /// Answer the command with this follow-up; the run is over.
    Reply(Followup),
    /// Look up the note with this name in this context.
    Lookup { name: Option<String>, context: i64 },
    /// Store a new note.
    Insert { name: Option<String>, note: Option<String>, owner: i64, context: i64 },
    /// List the names of the notes of this owner in this context.
    List { context: i64, owner: i64 },
    /// Delete the note with this name in this context.
    Delete { name: Option<String>, context: i64 },
    /// Fetch the user record of this user id.
    FetchUser { user_id: u64 },
}

pub enum NoteActionView {
    Reply(FollowupView),
    Lookup { name: Option<Seq<char>>, context: i64 },
    Insert { name: Option<Seq<char>>, note: Option<Seq<char>>, owner: i64, context: i64 },
    List { context: i64, owner: i64 },
    Delete { name: Option<Seq<char>>, context: i64 },
    FetchUser { user_id: u64 },
}

impl View for NoteAction {
    type V = NoteActionView;

    open spec fn view(&self) -> NoteActionView {
        match self {
            NoteAction::Reply(f) => NoteActionView::Reply(f@),
            NoteAction::Lookup { name, context } => NoteActionView::Lookup {
                name: opt_str(*name),
                context: *context,
            },
            NoteAction::Insert { name, note, owner, context } => NoteActionView::Insert {
                name: opt_str(*name),
                note: opt_str(*note),
                owner: *owner,
                context: *context,
            },
            NoteAction::List { context, owner } => NoteActionView::List {
                context: *context,
                owner: *owner,
            },
            NoteAction::Delete { name, context } => NoteActionView::Delete {
                name: opt_str(*name),
                context: *context,
            },
            NoteAction::FetchUser { user_id } => NoteActionView::FetchUser { user_id: *user_id },
        }
    }
}

/// The next state together with the action that leads to it.
pub struct Transition {
    pub state: NoteState,
    pub action: NoteAction,
}

pub struct TransitionView {
    pub state: NoteStateView,
    pub action: NoteActionView,
}

impl View for Transition {
    type V = TransitionView;

    open spec fn view(&self) -> TransitionView {
        TransitionView { state: self.state@, action: self.action@ }
    }
}

// ---------------------------------------------------------------------------
// Specification
// ---------------------------------------------------------------------------

/// The string value last given to the option named `key`, if any. Options
/// of that name with another kind of value are passed over.
pub open spec fn last_str_arg(args: Seq<ArgView>, key: Seq<char>) -> Option<Seq<char>>
    decreases args.len(),
{
    if args.len() == 0 {
        None
    } else {
        match args.last().value {
            ArgValueView::Str(s) if args.last().name == key => Some(s),
            _ => last_str_arg(args.drop_last(), key),
        }
    }
}

/// The boolean value last given to the option named `key`, if any.
pub open spec fn last_bool_arg(args: Seq<ArgView>, key: Seq<char>) -> Option<bool>
    decreases args.len(),
{
    if args.len() == 0 {
        None
    } else {
        match args.last().value {
            ArgValueView::Bool(b) if args.last().name == key => Some(b),
            _ => last_bool_arg(args.drop_last(), key),
        }
    }
}

/// The id whose notes a command works on: the invoker's own id for the
/// context `user`; for any other context, or none, the server's id, or the
/// invoker's id outside a server.
pub open spec fn query_context(context: Option<Seq<char>>, inv: InvokerView) -> u64 {
    if context == Some("user"@) {
        inv.user_id
    } else {
        match inv.guild_id {
            Some(g) => g,
            None => inv.user_id,
        }
    }
}

/// How a found note's context is described: `user` when it is the invoker's
/// own id, `server` otherwise.
pub open spec fn context_label(record_context: i64, inv: InvokerView) -> Seq<char> {
    if record_context as u64 == inv.user_id {
        "user"@
    } else {
        "server"@
    }
}

/// A text follow-up shown only to the invoker.
pub open spec fn private_text(text: Seq<char>) -> FollowupView {
    text_followup(text, Some(true))
}

/// The run ends with this reply.
pub open spec fn finish(f: FollowupView) -> TransitionView {
    TransitionView { state: NoteStateView::Finished, action: NoteActionView::Reply(f) }
}

/// The lines of a note list: each name followed by a newline.
pub open spec fn name_lines(names: Seq<Seq<char>>) -> Seq<char>
    decreases names.len(),
{
    if names.len() == 0 {
        Seq::empty()
    } else {
        name_lines(names.drop_last()) + names.last() + "\n"@
    }
}

/// The reply to `create` for a name that is taken.
pub open spec fn exists_text(name: Seq<char>, owner: Seq<char>, label: Seq<char>, note: Seq<char>) -> Seq<char> {
    "ERROR: Note already exists\n`"@ + name + "`'s "@ + owner + " note `"@ + label + "`:\n"@ + note
}

/// The text showing a note.
pub open spec fn shown_text(owner: Seq<char>, label: Seq<char>, name: Seq<char>, note: Seq<char>) -> Seq<char> {
    "`"@ + owner + "`'s "@ + label + " note `"@ + name + "`:\n"@ + note
}

/// The reply for a name that has no note.
pub open spec fn missing_text(name: Seq<char>) -> Seq<char> {
    "The note `"@ + name + "` doesn't exist, please specify a note that exists"@
}

/// The reply after a note was stored.
pub open spec fn created_text(name: Seq<char>) -> Seq<char> {
    "Successfully created note `"@ + name + "`"@
}

/// The reply after a note was deleted.
pub open spec fn deleted_text(name: Seq<char>) -> Seq<char> {
    "Successfully deleted note `"@ + name + "`"@
}

/// The title of the embed that lists notes.
pub open spec fn list_title(user: Seq<char>, context_text: Seq<char>) -> Seq<char> {
    user + "'s "@ + context_text + " notes"@
}

/// The reply listing the invoker's notes.
pub open spec fn list_followup(inv: InvokerView, context_text: Seq<char>, names: Seq<Seq<char>>) -> FollowupView {
    FollowupView {
        content: None,
        ephemeral: Some(true),
        embed: Some(EmbedView {
            title: list_title(inv.user.display_name(), context_text),
            color: 0x00afff,
            field_name: "Notes"@,
            field_value: name_lines(names),
            field_inline: true,
        }),
    }
}

/// The first state and action of a run, from the command's options.
pub open spec fn spec_execute(options: Seq<CommandOptionView>, inv: InvokerView) -> TransitionView {
    if options.len() == 0 {
        finish(private_text("ERROR: No Options Found"@))
    } else {
        match options[0].value {
            OptionValueView::Other => finish(text_followup(
                "How the fuck did you even get this error discord requires that you select a subcommand when running commands with subcommands"@,
                None,
            )),
            OptionValueView::SubCommand(args) => {
                let sub = options[0].name;
                let name = last_str_arg(args, "name"@);
                let context = last_str_arg(args, "context"@);
                let ctx = query_context(context, inv);
                if sub == "create"@ {
                    TransitionView {
                        state: NoteStateView::CreateLookup { name, note: last_str_arg(args, "note"@), context: ctx },
                        action: NoteActionView::Lookup { name, context: ctx as i64 },
                    }
                } else if sub == "get"@ {
                    TransitionView {
                        state: NoteStateView::GetLookup { name, hidenote: last_bool_arg(args, "hidenote"@) },
                        action: NoteActionView::Lookup { name, context: ctx as i64 },
                    }
                } else if sub == "list"@ {
                    TransitionView {
                        state: NoteStateView::Listing {
                            context_text: match context {
                                Some(c) => c,
                                None => "server"@,
                            },
                        },
                        action: NoteActionView::List { context: ctx as i64, owner: inv.user_id as i64 },
                    }
                } else if sub == "delete"@ {
                    TransitionView {
                        state: NoteStateView::DeleteLookup { name, context: ctx },
                        action: NoteActionView::Lookup { name, context: ctx as i64 },
                    }
                } else {
                    finish(private_text("ERROR: This subcommand is not implemented"@))
                }
            },
        }
    }
}

/// The events a state waits for, with the name present wherever the reply
/// shows it.
pub open spec fn step_defined(state: NoteStateView, event: NoteEventView) -> bool {
    match state {
        NoteStateView::Finished => false,
        NoteStateView::CreateLookup { .. } => event is Found || event is Missing || event is Failed,
        NoteStateView::CreateOwner { name, .. } => event is User && name is Some,
        NoteStateView::CreateInsert { name } => (event is Done && name is Some) || event is Failed,
        NoteStateView::GetLookup { name, .. } => event is Found || (event is Missing && name is Some)
            || event is Failed,
        NoteStateView::GetOwner { .. } => event is User,
        NoteStateView::Listing { .. } => event is Names || event is Failed,
        NoteStateView::DeleteLookup { name, .. } => event is Found || (event is Missing && name is Some)
            || event is Failed,
        NoteStateView::DeleteExec { name } => (event is Done && name is Some) || event is Failed,
    }
}

/// The next state and action, given the state, the outcome of the last
/// action, and the invoker.
pub open spec fn spec_step(state: NoteStateView, event: NoteEventView, inv: InvokerView) -> TransitionView {
    match state {
        NoteStateView::CreateLookup { name, note, context } => match event {
            NoteEventView::Found(record) => TransitionView {
                state: NoteStateView::CreateOwner { name, record },
                action: NoteActionView::FetchUser { user_id: record.owner as u64 },
            },
            NoteEventView::Missing => TransitionView {
                state: NoteStateView::CreateInsert { name },
                action: NoteActionView::Insert {
                    name,
                    note,
                    owner: inv.user_id as i64,
                    context: context as i64,
                },
            },
            _ => finish(private_text("ERROR: Failed to query database"@)),
        },
        NoteStateView::CreateOwner { name, record } => match event {
            NoteEventView::User(owner) => finish(private_text(exists_text(
                name.unwrap(),
                owner.display_name(),
                context_label(record.context, inv),
                record.note,
            ))),
            _ => finish(private_text(Seq::empty())),
        },
        NoteStateView::CreateInsert { name } => match event {
            NoteEventView::Done => finish(private_text(created_text(name.unwrap()))),
            _ => finish(private_text("ERROR: Failed to query database when saving note"@)),
        },
        NoteStateView::GetLookup { name, hidenote } => match event {
            NoteEventView::Found(record) => TransitionView {
                state: NoteStateView::GetOwner { record, hidenote },
                action: NoteActionView::FetchUser { user_id: record.owner as u64 },
            },
            NoteEventView::Missing => finish(private_text(missing_text(name.unwrap()))),
            _ => finish(private_text("ERROR: Failed to query database"@)),
        },
        NoteStateView::GetOwner { record, hidenote } => match event {
            NoteEventView::User(owner) => finish(text_followup(
                shown_text(owner.display_name(), context_label(record.context, inv), record.name, record.note),
                hidenote,
            )),
            _ => finish(private_text(Seq::empty())),
        },
        NoteStateView::Listing { context_text } => match event {
            NoteEventView::Names(names) => finish(list_followup(inv, context_text, names)),
            _ => finish(private_text(
                "Failed to query database - either you own no notes or the database failed"@,
            )),
        },
        NoteStateView::DeleteLookup { name, context } => match event {
            NoteEventView::Found(record) => if inv.user_id == record.owner as u64 {
                TransitionView {
                    state: NoteStateView::DeleteExec { name },
                    action: NoteActionView::Delete { name, context: context as i64 },
                }
            } else {
                finish(private_text(
                    "You do not have permission to delete this note as you don't own it"@,
                ))
            },
            NoteEventView::Missing => finish(private_text(missing_text(name.unwrap()))),
            _ => finish(private_text("ERROR: Failed to query database when verifying ownership"@)),
        },
        NoteStateView::DeleteExec { name } => match event {
            NoteEventView::Done => finish(private_text(deleted_text(name.unwrap()))),
            _ => finish(private_text("ERROR: Failed to query database"@)),
        },
        NoteStateView::Finished => finish(private_text(Seq::empty())),
    }
}


// ---------------------------------------------------------------------------
// Implementation
// ---------------------------------------------------------------------------

/// A copy of an optional string.
fn copy_opt(o: &Option<String>) -> (r: Option<String>)
    ensures
        opt_str(r) == opt_str(*o),
{
    match o {
        Some(s) => Some(s.clone()),
        None => None,
    }
}

/// The string value last given to the option named `key`.
fn find_str_arg(args: &Vec<Arg>, key: &str) -> (r: Option<String>)
    ensures
        opt_str(r) == last_str_arg(args_view(args@), key@),
{
    let ghost v = args_view(args@);
    let mut found: Option<String> = None;
    let mut i: usize = 0;
    while i < args.len()
        invariant
            v == args_view(args@),
            i <= args@.len(),
            opt_str(found) == last_str_arg(v.take(i as int), key@),
        decreases args@.len() - i,
    {
        assert(v.take(i + 1).drop_last() =~= v.take(i as int));
        assert(v.take(i + 1).last() == args@[i as int]@);
        match &args[i].value {
            ArgValue::Str(s) => {
                if str_eq(args[i].name.as_str(), key) {
                    found = Some(s.clone());
                }
            },
            _ => {},
        }
        i = i + 1;
    }
    assert(v.take(args@.len() as int) =~= v);
    found
}

/// The boolean value last given to the option named `key`.
fn find_bool_arg(args: &Vec<Arg>, key: &str) -> (r: Option<bool>)
    ensures
        r == last_bool_arg(args_view(args@), key@),
{
    let ghost v = args_view(args@);
    let mut found: Option<bool> = None;
    let mut i: usize = 0;
    while i < args.len()
        invariant
            v == args_view(args@),
            i <= args@.len(),
            found == last_bool_arg(v.take(i as int), key@),
        decreases args@.len() - i,
    {
        assert(v.take(i + 1).drop_last() =~= v.take(i as int));
        assert(v.take(i + 1).last() == args@[i as int]@);
        match &args[i].value {
            ArgValue::Bool(b) => {
                if str_eq(args[i].name.as_str(), key) {
                    found = Some(*b);
                }
            },
            _ => {},
        }
        i = i + 1;
    }
    assert(v.take(args@.len() as int) =~= v);
    found
}

/// The id whose notes the command works on, for the given `context` option.
pub fn resolve_context(context: &Option<String>, invoker: &Invoker) -> (c: u64)
    ensures
        c == query_context(opt_str(*context), invoker@),
{
    let is_user = match context {
        Some(s) => str_eq(s.as_str(), "user"),
        None => false,
    };
    if is_user {
        invoker.user_id
    } else {
        match invoker.guild_id {
            Some(g) => g,
            None => invoker.user_id,
        }
    }
}

/// A text follow-up shown only to the invoker.
fn private_reply(text: String) -> (f: Followup)
    ensures
        f@ == private_text(text@),
{
    text_reply(text, Some(true))
}

/// The run ends with this reply.
fn finished(f: Followup) -> (t: Transition)
    ensures
        t@ == finish(f@),
{
    Transition { state: NoteState::Finished, action: NoteAction::Reply(f) }
}

/// The first state and action of a run of the command, from its options and
/// the invoker. Only the first option counts: it must be a subcommand
/// (`create`, `get`, `list` or `delete`); within it, the last value given to
/// each known option counts.
pub fn execute(options: &Vec<CommandOption>, invoker: &Invoker) -> (t: Transition)
    ensures
        t@ == spec_execute(options_view(options@), invoker@),
{
    if options.len() == 0 {
        return finished(private_reply(String::from_str("ERROR: No Options Found")));
    }
    let first = &options[0];
    assert(options_view(options@)[0] == first@);
    match &first.value {
        OptionValue::Other => finished(text_reply(
            String::from_str(
                "How the fuck did you even get this error discord requires that you select a subcommand when running commands with subcommands",
            ),
            None,
        )),
        OptionValue::SubCommand(args) => {
            let sub = first.name.as_str();
            let name = find_str_arg(args, "name");
            let context = find_str_arg(args, "context");
            let ctx = resolve_context(&context, invoker);
            if str_eq(sub, "create") {
                let note = find_str_arg(args, "note");
                let lookup_name = copy_opt(&name);
                Transition {
                    state: NoteState::CreateLookup { name, note, context: ctx },
                    action: NoteAction::Lookup { name: lookup_name, context: ctx as i64 },
                }
            } else if str_eq(sub, "get") {
                let hidenote = find_bool_arg(args, "hidenote");
                let lookup_name = copy_opt(&name);
                Transition {
                    state: NoteState::GetLookup { name, hidenote },
                    action: NoteAction::Lookup { name: lookup_name, context: ctx as i64 },
                }
            } else if str_eq(sub, "list") {
                let context_text = match context {
                    Some(c) => c,
                    None => String::from_str("server"),
                };
                Transition {
                    state: NoteState::Listing { context_text },
                    action: NoteAction::List { context: ctx as i64, owner: invoker.user_id as i64 },
                }
            } else if str_eq(sub, "delete") {
                let lookup_name = copy_opt(&name);
                Transition {
                    state: NoteState::DeleteLookup { name, context: ctx },
                    action: NoteAction::Lookup { name: lookup_name, context: ctx as i64 },
                }
            } else {
                finished(private_reply(String::from_str("ERROR: This subcommand is not implemented")))
            }
        },
    }
}


/// How a found note's context is described.
fn label_for(record_context: i64, invoker: &Invoker) -> (s: &'static str)
    ensures
        s@ == context_label(record_context, invoker@),
{
    if record_context as u64 == invoker.user_id {
        "user"
    } else {
        "server"
    }
}

/// The reply to `create` for a name that is taken.
fn exists_message(name: &str, owner: &str, label: &str, note: &str) -> (s: String)
    ensures
        s@ == exists_text(name@, owner@, label@, note@),
{
    let mut s = String::from_str("ERROR: Note already exists\n`");
    s.append(name);
    s.append("`'s ");
    s.append(owner);
    s.append(" note `");
    s.append(label);
    s.append("`:\n");
    s.append(note);
    s
}

/// The text showing a note.
fn shown_message(owner: &str, label: &str, name: &str, note: &str) -> (s: String)
    ensures
        s@ == shown_text(owner@, label@, name@, note@),
{
    let mut s = String::from_str("`");
    s.append(owner);
    s.append("`'s ");
    s.append(label);
    s.append(" note `");
    s.append(name);
    s.append("`:\n");
    s.append(note);
    s
}

/// The reply for a name that has no note.
fn missing_message(name: &str) -> (s: String)
    ensures
        s@ == missing_text(name@),
{
    let mut s = String::from_str("The note `");
    s.append(name);
    s.append("` doesn't exist, please specify a note that exists");
    s
}

/// The reply after a note was stored.
fn created_message(name: &str) -> (s: String)
    ensures
        s@ == created_text(name@),
{
    let mut s = String::from_str("Successfully created note `");
    s.append(name);
    s.append("`");
    s
}

/// The reply after a note was deleted.
fn deleted_message(name: &str) -> (s: String)
    ensures
        s@ == deleted_text(name@),
{
    let mut s = String::from_str("Successfully deleted note `");
    s.append(name);
    s.append("`");
    s
}

/// Each name followed by a newline.
pub fn lines_of(names: &Vec<String>) -> (s: String)
    ensures
        s@ == name_lines(strs_view(names@)),
{
    let ghost v = strs_view(names@);
    let mut s = String::new();
    let mut i: usize = 0;
    while i < names.len()
        invariant
            v == strs_view(names@),
            i <= names@.len(),
            s@ == name_lines(v.take(i as int)),
        decreases names@.len() - i,
    {
        assert(v.take(i + 1).drop_last() =~= v.take(i as int));
        assert(v.take(i + 1).last() == names@[i as int]@);
        s.append(names[i].as_str());
        s.append("\n");
        i = i + 1;
    }
    assert(v.take(names@.len() as int) =~= v);
    s
}

/// The reply listing the invoker's notes.
fn list_reply(invoker: &Invoker, context_text: &str, names: &Vec<String>) -> (f: Followup)
    ensures
        f@ == list_followup(invoker@, context_text@, strs_view(names@)),
{
    let mut title = String::from_str(invoker.user.display_name());
    title.append("'s ");
    title.append(context_text);
    title.append(" notes");
    let embed = Embed {
        title,
        color: 0x00afff,
        field_name: String::from_str("Notes"),
        field_value: lines_of(names),
        field_inline: true,
    };
    Followup { content: None, ephemeral: Some(true), embed: Some(embed) }
}

/// Whether [`step`] is defined for this state and event: the event is an
/// outcome of the action that led to the state, and the note's name is
/// present wherever the reply shows it.
pub fn can_step(state: &NoteState, event: &NoteEvent) -> (res: bool)
    ensures
        res == step_defined(state@, event@),
{
    match state {
        NoteState::Finished => false,
        NoteState::CreateLookup { .. } => match event {
            NoteEvent::Found(_) | NoteEvent::Missing | NoteEvent::Failed => true,
            _ => false,
        },
        NoteState::CreateOwner { name, .. } => match event {
            NoteEvent::User(_) => name.is_some(),
            _ => false,
        },
        NoteState::CreateInsert { name } | NoteState::DeleteExec { name } => match event {
            NoteEvent::Done => name.is_some(),
            NoteEvent::Failed => true,
            _ => false,
        },
        NoteState::GetLookup { name, .. } | NoteState::DeleteLookup { name, .. } => match event {
            NoteEvent::Found(_) | NoteEvent::Failed => true,
            NoteEvent::Missing => name.is_some(),
            _ => false,
        },
        NoteState::GetOwner { .. } => match event {
            NoteEvent::User(_) => true,
            _ => false,
        },
        NoteState::Listing { .. } => match event {
            NoteEvent::Names(_) | NoteEvent::Failed => true,
            _ => false,
        },
    }
}

/// The next state and action, from the current state, the outcome of the
/// last action, and the invoker.
pub fn step(state: NoteState, event: NoteEvent, invoker: &Invoker) -> (t: Transition)
    requires
        step_defined(state@, event@),
    ensures
        t@ == spec_step(state@, event@, invoker@),
{
    match state {
        NoteState::CreateLookup { name, note, context } => match event {
            NoteEvent::Found(record) => {
                let user_id = record.owner as u64;
                Transition {
                    state: NoteState::CreateOwner { name, record },
                    action: NoteAction::FetchUser { user_id },
                }
            },
            NoteEvent::Missing => {
                let state_name = copy_opt(&name);
                Transition {
                    state: NoteState::CreateInsert { name: state_name },
                    action: NoteAction::Insert {
                        name,
                        note,
                        owner: invoker.user_id as i64,
                        context: context as i64,
                    },
                }
            },
            _ => finished(private_reply(String::from_str("ERROR: Failed to query database"))),
        },
        NoteState::CreateOwner { name, record } => match event {
            NoteEvent::User(owner) => {
                let name = name.unwrap();
                let label = label_for(record.context, invoker);
                finished(private_reply(
                    exists_message(name.as_str(), owner.display_name(), label, record.note.as_str()),
                ))
            },
            _ => vstd::pervasive::unreached(),
        },
        NoteState::CreateInsert { name } => match event {
            NoteEvent::Done => {
                let name = name.unwrap();
                finished(private_reply(created_message(name.as_str())))
            },
            _ => finished(
                private_reply(String::from_str("ERROR: Failed to query database when saving note")),
            ),
        },
        NoteState::GetLookup { name, hidenote } => match event {
            NoteEvent::Found(record) => {
                let user_id = record.owner as u64;
                Transition {
                    state: NoteState::GetOwner { record, hidenote },
                    action: NoteAction::FetchUser { user_id },
                }
            },
            NoteEvent::Missing => {
                let name = name.unwrap();
                finished(private_reply(missing_message(name.as_str())))
            },
            _ => finished(private_reply(String::from_str("ERROR: Failed to query database"))),
        },
        NoteState::GetOwner { record, hidenote } => match event {
            NoteEvent::User(owner) => {
                let label = label_for(record.context, invoker);
                let text = shown_message(
                    owner.display_name(),
                    label,
                    record.name.as_str(),
                    record.note.as_str(),
                );
                finished(text_reply(text, hidenote))
            },
            _ => vstd::pervasive::unreached(),
        },
        NoteState::Listing { context_text } => match event {
            NoteEvent::Names(names) => finished(list_reply(invoker, context_text.as_str(), &names)),
            _ => finished(private_reply(String::from_str(
                "Failed to query database - either you own no notes or the database failed",
            ))),
        },
        NoteState::DeleteLookup { name, context } => match event {
            NoteEvent::Found(record) => {
                if invoker.user_id == record.owner as u64 {
                    let state_name = copy_opt(&name);
                    Transition {
                        state: NoteState::DeleteExec { name: state_name },
                        action: NoteAction::Delete { name, context: context as i64 },
                    }
                } else {
                    finished(private_reply(String::from_str(
                        "You do not have permission to delete this note as you don't own it",
                    )))
                }
            },
            NoteEvent::Missing => {
                let name = name.unwrap();
                finished(private_reply(missing_message(name.as_str())))
            },
            _ => finished(private_reply(
                String::from_str("ERROR: Failed to query database when verifying ownership"),
            )),
        },
        NoteState::DeleteExec { name } => match event {
            NoteEvent::Done => {
                let name = name.unwrap();
                finished(private_reply(deleted_message(name.as_str())))
            },
            _ => finished(private_reply(String::from_str("ERROR: Failed to query database"))),
        },
        NoteState::Finished => vstd::pervasive::unreached(),
    }
}


// ---------------------------------------------------------------------------
// The command's definition
// ---------------------------------------------------------------------------

/// A parameter without fixed choices.
pub open spec fn plain_param(kind: ParamKind, name: Seq<char>, description: Seq<char>, required: bool) -> ParamView {
    ParamView { kind, name, description, required, choices: Seq::empty() }
}

/// The optional `context` parameter, with the choices `Server` and `User`.
pub open spec fn context_param() -> ParamView {
    ParamView {
        kind: ParamKind::String,
        name: "context"@,
        description: "Whether to find your user or server notes"@,
        required: false,
        choices: seq![
            ChoiceView { name: "Server"@, value: "server"@ },
            ChoiceView { name: "User"@, value: "user"@ },
        ],
    }
}

/// The definition of `/note`: installable in servers and for users, with the
/// subcommands `create`, `get`, `list` and `delete`.
pub open spec fn note_command() -> CommandView {
    CommandView {
        name: "note"@,
        description: "Store and Retrieve Notes"@,
        installations: seq![Installation::Guild, Installation::User],
        subcommands: seq![
            SubcommandView {
                name: "create"@,
                description: "Creates a new note"@,
                params: seq![
                    plain_param(ParamKind::String, "name"@, "The name of the note to create"@, true),
                    plain_param(ParamKind::String, "note"@, "The note to be saved"@, true),
                    context_param(),
                ],
            },
            SubcommandView {
                name: "get"@,
                description: "Gets a note from the database"@,
                params: seq![
                    plain_param(ParamKind::String, "name"@, "The name of the note to get"@, true),
                    context_param(),
                    plain_param(
                        ParamKind::Boolean,
                        "hidenote"@,
                        "Whether the note should only show for you or for everyone"@,
                        false,
                    ),
                ],
            },
            SubcommandView {
                name: "list"@,
                description: "Lists all of the tags you own"@,
                params: seq![context_param()],
            },
            SubcommandView {
                name: "delete"@,
                description: "Removes a note if you own it"@,
                params: seq![
                    plain_param(ParamKind::String, "name"@, "The name of the note to delete"@, true),
                    context_param(),
                ],
            },
        ],
    }
}

fn make_plain_param(kind: ParamKind, name: &str, description: &str, required: bool) -> (p: ParamSpec)
    ensures
        p@ == plain_param(kind, name@, description@, required),
{
    let p = ParamSpec {
        kind,
        name: String::from_str(name),
        description: String::from_str(description),
        required,
        choices: Vec::new(),
    };
    assert(p@.choices =~= Seq::<ChoiceView>::empty());
    p
}

fn make_context_param() -> (p: ParamSpec)
    ensures
        p@ == context_param(),
{
    let mut choices: Vec<Choice> = Vec::new();
    choices.push(Choice { name: String::from_str("Server"), value: String::from_str("server") });
    choices.push(Choice { name: String::from_str("User"), value: String::from_str("user") });
    let p = ParamSpec {
        kind: ParamKind::String,
        name: String::from_str("context"),
        description: String::from_str("Whether to find your user or server notes"),
        required: false,
        choices,
    };
    assert(p@.choices =~= context_param().choices);
    p
}

fn make_subcommand(name: &str, description: &str, params: Vec<ParamSpec>) -> (s: SubcommandSpec)
    ensures
        s@.name == name@,
        s@.description == description@,
        s@.params == params@.map_values(|p: ParamSpec| p@),
{
    SubcommandSpec { name: String::from_str(name), description: String::from_str(description), params }
}

/// The definition of the `/note` command.
pub fn register() -> (cmd: CommandSpec)
    ensures
        cmd@ == note_command(),
{
    let mut create_params: Vec<ParamSpec> = Vec::new();
    create_params.push(make_plain_param(ParamKind::String, "name", "The name of the note to create", true));
    create_params.push(make_plain_param(ParamKind::String, "note", "The note to be saved", true));
    create_params.push(make_context_param());
    let create = make_subcommand("create", "Creates a new note", create_params);

    let mut get_params: Vec<ParamSpec> = Vec::new();
    get_params.push(make_plain_param(ParamKind::String, "name", "The name of the note to get", true));
    get_params.push(make_context_param());
    get_params.push(make_plain_param(
        ParamKind::Boolean,
        "hidenote",
        "Whether the note should only show for you or for everyone",
        false,
    ));
    let get = make_subcommand("get", "Gets a note from the database", get_params);

    let mut list_params: Vec<ParamSpec> = Vec::new();
    list_params.push(make_context_param());
    let list = make_subcommand("list", "Lists all of the tags you own", list_params);

    let mut delete_params: Vec<ParamSpec> = Vec::new();
    delete_params.push(make_plain_param(ParamKind::String, "name", "The name of the note to delete", true));
    delete_params.push(make_context_param());
    let delete = make_subcommand("delete", "Removes a note if you own it", delete_params);

    let ghost expected = note_command();
    assert(create@.params =~= expected.subcommands[0].params);
    assert(create@ == expected.subcommands[0]);
    assert(get@.params =~= expected.subcommands[1].params);
    assert(get@ == expected.subcommands[1]);
    assert(list@.params =~= expected.subcommands[2].params);
    assert(list@ == expected.subcommands[2]);
    assert(delete@.params =~= expected.subcommands[3].params);
    assert(delete@ == expected.subcommands[3]);

    let mut installations: Vec<Installation> = Vec::new();
    installations.push(Installation::Guild);
    installations.push(Installation::User);
    let mut subcommands: Vec<SubcommandSpec> = Vec::new();
    subcommands.push(create);
    subcommands.push(get);
    subcommands.push(list);
    subcommands.push(delete);
    let cmd = CommandSpec {
        name: String::from_str("note"),
        description: String::from_str("Store and Retrieve Notes"),
        installations,
        subcommands,
    };
    assert(cmd@.installations =~= expected.installations);
    assert(cmd@.subcommands =~= expected.subcommands);
    cmd
}

} // verus!
