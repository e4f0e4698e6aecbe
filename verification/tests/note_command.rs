use std::collections::HashMap;
use notes_bot::commands::note::{
    can_step, execute, lines_of, register, resolve_context, step, NoteAction, NoteEvent,
    NoteRecord, NoteState, Transition,
};
use notes_bot::model::{
    Arg, ArgValue, CommandOption, DiscordUser, Followup, Installation, Invoker, OptionValue,
    ParamKind,
};

fn user(name: &str, global: Option<&str>) -> DiscordUser {
    DiscordUser { name: name.to_string(), global_name: global.map(|g| g.to_string()) }
}

fn invoker(user_id: u64, guild_id: Option<u64>) -> Invoker {
    Invoker { user_id, guild_id, user: user("alice", Some("Alice")) }
}

fn s(name: &str, value: &str) -> Arg {
    Arg { name: name.to_string(), value: ArgValue::Str(value.to_string()) }
}

fn b(name: &str, value: bool) -> Arg {
    Arg { name: name.to_string(), value: ArgValue::Bool(value) }
}

fn sub(name: &str, args: Vec<Arg>) -> Vec<CommandOption> {
    vec![CommandOption { name: name.to_string(), value: OptionValue::SubCommand(args) }]
}

fn record(name: &str, note: &str, owner: i64, context: i64) -> NoteRecord {
    NoteRecord { name: name.to_string(), note: note.to_string(), owner, context }
}

fn reply(t: &Transition) -> &Followup {
    assert!(matches!(t.state, NoteState::Finished));
    match &t.action {
        NoteAction::Reply(f) => f,
        _ => panic!("expected a reply"),
    }
}

fn text(t: &Transition) -> String {
    reply(t).content.clone().expect("a text reply")
}

fn lookup(t: &Transition) -> (Option<String>, i64) {
    match &t.action {
        NoteAction::Lookup { name, context } => (name.clone(), *context),
        _ => panic!("expected a lookup"),
    }
}

#[test]
fn no_options_is_an_error() {
    let t = execute(&vec![], &invoker(7, Some(100)));
    assert_eq!(text(&t), "ERROR: No Options Found");
    assert_eq!(reply(&t).ephemeral, Some(true));
}

#[test]
fn non_subcommand_option_is_answered_publicly() {
    let opts = vec![CommandOption { name: "create".to_string(), value: OptionValue::Other }];
    let t = execute(&opts, &invoker(7, Some(100)));
    assert_eq!(
        text(&t),
        "How the fuck did you even get this error discord requires that you select a subcommand when running commands with subcommands"
    );
    assert_eq!(reply(&t).ephemeral, None);
}

#[test]
fn unknown_subcommand_is_an_error() {
    let t = execute(&sub("rename", vec![s("name", "x")]), &invoker(7, Some(100)));
    assert_eq!(text(&t), "ERROR: This subcommand is not implemented");
    assert_eq!(reply(&t).ephemeral, Some(true));
}

#[test]
fn context_resolution() {
    let in_guild = invoker(7, Some(100));
    let in_dm = invoker(7, None);
    assert_eq!(resolve_context(&Some("user".to_string()), &in_guild), 7);
    assert_eq!(resolve_context(&Some("server".to_string()), &in_guild), 100);
    assert_eq!(resolve_context(&Some("other".to_string()), &in_guild), 100);
    assert_eq!(resolve_context(&None, &in_guild), 100);
    assert_eq!(resolve_context(&Some("server".to_string()), &in_dm), 7);
    assert_eq!(resolve_context(&None, &in_dm), 7);
}

#[test]
fn create_looks_up_name_in_context() {
    let t = execute(
        &sub("create", vec![s("name", "todo"), s("note", "buy milk"), s("context", "user")]),
        &invoker(7, Some(100)),
    );
    assert_eq!(lookup(&t), (Some("todo".to_string()), 7));
    let t = execute(&sub("create", vec![s("name", "todo"), s("note", "buy milk")]), &invoker(7, Some(100)));
    assert_eq!(lookup(&t), (Some("todo".to_string()), 100));
}

#[test]
fn last_value_of_an_option_counts_and_other_kinds_are_ignored() {
    let t = execute(
        &sub("get", vec![s("name", "a"), b("name", true), s("name", "b"), s("hidenote", "yes")]),
        &invoker(7, Some(100)),
    );
    assert_eq!(lookup(&t), (Some("b".to_string()), 100));
    match &t.state {
        NoteState::GetLookup { hidenote, .. } => assert_eq!(*hidenote, None),
        _ => panic!("expected the get lookup state"),
    }
}

#[test]
fn create_new_note_inserts_as_invoker() {
    let inv = invoker(7, Some(100));
    let t = execute(&sub("create", vec![s("name", "todo"), s("note", "buy milk")]), &inv);
    assert!(can_step(&t.state, &NoteEvent::Missing));
    let t = step(t.state, NoteEvent::Missing, &inv);
    match &t.action {
        NoteAction::Insert { name, note, owner, context } => {
            assert_eq!(name.as_deref(), Some("todo"));
            assert_eq!(note.as_deref(), Some("buy milk"));
            assert_eq!(*owner, 7);
            assert_eq!(*context, 100);
        }
        _ => panic!("expected an insert"),
    }
    let done = step(t.state, NoteEvent::Done, &inv);
    assert_eq!(text(&done), "Successfully created note `todo`");
    assert_eq!(reply(&done).ephemeral, Some(true));
}

#[test]
fn create_insert_failure() {
    let inv = invoker(7, Some(100));
    let t = execute(&sub("create", vec![s("name", "todo"), s("note", "x")]), &inv);
    let t = step(t.state, NoteEvent::Missing, &inv);
    let t = step(t.state, NoteEvent::Failed, &inv);
    assert_eq!(text(&t), "ERROR: Failed to query database when saving note");
}

#[test]
fn create_existing_note_reports_it() {
    let inv = invoker(7, Some(100));
    let t = execute(&sub("create", vec![s("name", "todo"), s("note", "x")]), &inv);
    let t = step(t.state, NoteEvent::Found(record("todo", "old text", 9, 100)), &inv);
    assert!(matches!(t.action, NoteAction::FetchUser { user_id: 9 }));
    let t = step(t.state, NoteEvent::User(user("bob", None)), &inv);
    assert_eq!(text(&t), "ERROR: Note already exists\n`todo`'s bob note `server`:\nold text");
    assert_eq!(reply(&t).ephemeral, Some(true));
}

#[test]
fn create_lookup_failure() {
    let inv = invoker(7, None);
    let t = execute(&sub("create", vec![s("name", "todo")]), &inv);
    let t = step(t.state, NoteEvent::Failed, &inv);
    assert_eq!(text(&t), "ERROR: Failed to query database");
}

#[test]
fn get_shows_note_with_owner_and_context() {
    let inv = invoker(7, Some(100));
    let t = execute(&sub("get", vec![s("name", "todo"), s("context", "user")]), &inv);
    assert_eq!(lookup(&t), (Some("todo".to_string()), 7));
    let t = step(t.state, NoteEvent::Found(record("todo", "buy milk", 7, 7)), &inv);
    let t = step(t.state, NoteEvent::User(user("alice", Some("Alice"))), &inv);
    assert_eq!(text(&t), "`Alice`'s user note `todo`:\nbuy milk");
    assert_eq!(reply(&t).ephemeral, None);
}

#[test]
fn get_hidenote_sets_visibility() {
    let inv = invoker(7, Some(100));
    for (hide, expected) in [(true, Some(true)), (false, Some(false))] {
        let t = execute(&sub("get", vec![s("name", "todo"), b("hidenote", hide)]), &inv);
        let t = step(t.state, NoteEvent::Found(record("todo", "n", 9, 100)), &inv);
        let t = step(t.state, NoteEvent::User(user("bob", None)), &inv);
        assert_eq!(text(&t), "`bob`'s server note `todo`:\nn");
        assert_eq!(reply(&t).ephemeral, expected);
    }
}

#[test]
fn get_missing_and_failed() {
    let inv = invoker(7, Some(100));
    let t = execute(&sub("get", vec![s("name", "nope")]), &inv);
    let m = step(t.state, NoteEvent::Missing, &inv);
    assert_eq!(text(&m), "The note `nope` doesn't exist, please specify a note that exists");
    let t = execute(&sub("get", vec![s("name", "nope")]), &inv);
    let f = step(t.state, NoteEvent::Failed, &inv);
    assert_eq!(text(&f), "ERROR: Failed to query database");
}

#[test]
fn get_without_name_cannot_answer_missing() {
    let inv = invoker(7, Some(100));
    let t = execute(&sub("get", vec![]), &inv);
    assert_eq!(lookup(&t), (None, 100));
    assert!(!can_step(&t.state, &NoteEvent::Missing));
    assert!(can_step(&t.state, &NoteEvent::Failed));
    assert!(!can_step(&t.state, &NoteEvent::Done));
}

#[test]
fn negative_owner_is_read_as_unsigned() {
    let inv = invoker(7, Some(100));
    let t = execute(&sub("get", vec![s("name", "x")]), &inv);
    let t = step(t.state, NoteEvent::Found(record("x", "n", -1, 100)), &inv);
    assert!(matches!(t.action, NoteAction::FetchUser { user_id: u64::MAX }));
}

#[test]
fn list_queries_own_notes_and_builds_embed() {
    let inv = invoker(7, Some(100));
    let t = execute(&sub("list", vec![]), &inv);
    assert!(matches!(t.action, NoteAction::List { context: 100, owner: 7 }));
    let t = step(t.state, NoteEvent::Names(vec!["a".to_string(), "b".to_string()]), &inv);
    let f = reply(&t);
    assert_eq!(f.content, None);
    assert_eq!(f.ephemeral, Some(true));
    let e = f.embed.as_ref().expect("an embed");
    assert_eq!(e.title, "Alice's server notes");
    assert_eq!(e.color, 0x00afff);
    assert_eq!(e.field_name, "Notes");
    assert_eq!(e.field_value, "a\nb\n");
    assert!(e.field_inline);
}

#[test]
fn list_uses_given_context_text() {
    let inv = Invoker { user_id: 7, guild_id: None, user: user("carol", None) };
    let t = execute(&sub("list", vec![s("context", "user")]), &inv);
    assert!(matches!(t.action, NoteAction::List { context: 7, owner: 7 }));
    let t = step(t.state, NoteEvent::Names(vec![]), &inv);
    let e = reply(&t).embed.as_ref().unwrap();
    assert_eq!(e.title, "carol's user notes");
    assert_eq!(e.field_value, "");
}

#[test]
fn list_failure() {
    let inv = invoker(7, Some(100));
    let t = execute(&sub("list", vec![]), &inv);
    let t = step(t.state, NoteEvent::Failed, &inv);
    assert_eq!(text(&t), "Failed to query database - either you own no notes or the database failed");
}

#[test]
fn delete_by_owner() {
    let inv = invoker(7, Some(100));
    let t = execute(&sub("delete", vec![s("name", "todo")]), &inv);
    let t = step(t.state, NoteEvent::Found(record("todo", "n", 7, 100)), &inv);
    match &t.action {
        NoteAction::Delete { name, context } => {
            assert_eq!(name.as_deref(), Some("todo"));
            assert_eq!(*context, 100);
        }
        _ => panic!("expected a delete"),
    }
    let done = step(t.state, NoteEvent::Done, &inv);
    assert_eq!(text(&done), "Successfully deleted note `todo`");
}

#[test]
fn delete_by_other_user_is_refused() {
    let inv = invoker(7, Some(100));
    let t = execute(&sub("delete", vec![s("name", "todo")]), &inv);
    let t = step(t.state, NoteEvent::Found(record("todo", "n", 8, 100)), &inv);
    assert_eq!(text(&t), "You do not have permission to delete this note as you don't own it");
    assert_eq!(reply(&t).ephemeral, Some(true));
}

#[test]
fn delete_missing_and_failures() {
    let inv = invoker(7, Some(100));
    let t = execute(&sub("delete", vec![s("name", "todo")]), &inv);
    let m = step(t.state, NoteEvent::Missing, &inv);
    assert_eq!(text(&m), "The note `todo` doesn't exist, please specify a note that exists");
    let t = execute(&sub("delete", vec![s("name", "todo")]), &inv);
    let f = step(t.state, NoteEvent::Failed, &inv);
    assert_eq!(text(&f), "ERROR: Failed to query database when verifying ownership");
    let t = execute(&sub("delete", vec![s("name", "todo")]), &inv);
    let t = step(t.state, NoteEvent::Found(record("todo", "n", 7, 100)), &inv);
    let f = step(t.state, NoteEvent::Failed, &inv);
    assert_eq!(text(&f), "ERROR: Failed to query database");
}

#[test]
fn every_run_is_answered_within_three_actions() {
    let inv = invoker(7, Some(100));
    let runs: Vec<(Vec<CommandOption>, Vec<NoteEvent>)> = vec![
        (sub("create", vec![s("name", "a")]), vec![NoteEvent::Found(record("a", "n", 1, 1)), NoteEvent::User(user("u", None))]),
        (sub("create", vec![s("name", "a")]), vec![NoteEvent::Missing, NoteEvent::Done]),
        (sub("get", vec![s("name", "a")]), vec![NoteEvent::Found(record("a", "n", 1, 1)), NoteEvent::User(user("u", None))]),
        (sub("list", vec![]), vec![NoteEvent::Names(vec![])]),
        (sub("delete", vec![s("name", "a")]), vec![NoteEvent::Found(record("a", "n", 7, 1)), NoteEvent::Done]),
    ];
    for (opts, events) in runs {
        let mut t = execute(&opts, &inv);
        let mut actions = 1;
        for e in events {
            assert!(!matches!(t.action, NoteAction::Reply(_)));
            t = step(t.state, e, &inv);
            actions += 1;
        }
        assert!(matches!(t.action, NoteAction::Reply(_)));
        assert!(matches!(t.state, NoteState::Finished));
        assert!(actions <= 3);
    }
}

#[test]
fn note_lines_join() {
    assert_eq!(lines_of(&vec![]), "");
    assert_eq!(lines_of(&vec!["x".to_string(), "y z".to_string()]), "x\ny z\n");
}

#[test]
fn note_command_definition() {
    let cmd = register();
    assert_eq!(cmd.name, "note");
    assert_eq!(cmd.description, "Store and Retrieve Notes");
    assert_eq!(cmd.installations, vec![Installation::Guild, Installation::User]);
    let names: Vec<&str> = cmd.subcommands.iter().map(|s| s.name.as_str()).collect();
    assert_eq!(names, vec!["create", "get", "list", "delete"]);
    let create = &cmd.subcommands[0];
    assert_eq!(create.description, "Creates a new note");
    assert_eq!(create.params.len(), 3);
    assert_eq!(create.params[0].name, "name");
    assert!(create.params[0].required);
    assert_eq!(create.params[1].description, "The note to be saved");
    let ctx = &create.params[2];
    assert_eq!(ctx.name, "context");
    assert!(!ctx.required);
    assert_eq!(ctx.kind, ParamKind::String);
    assert_eq!(ctx.choices.len(), 2);
    assert_eq!((ctx.choices[0].name.as_str(), ctx.choices[0].value.as_str()), ("Server", "server"));
    assert_eq!((ctx.choices[1].name.as_str(), ctx.choices[1].value.as_str()), ("User", "user"));
    let get = &cmd.subcommands[1];
    assert_eq!(get.params[2].name, "hidenote");
    assert_eq!(get.params[2].kind, ParamKind::Boolean);
    assert_eq!(get.params[2].description, "Whether the note should only show for you or for everyone");
    assert_eq!(cmd.subcommands[2].description, "Lists all of the tags you own");
    assert_eq!(cmd.subcommands[3].params[0].description, "The name of the note to delete");
}

#[test]
fn registered_subcommands_and_params_reach_execute() {
    let inv = invoker(7, Some(100));
    let cmd = register();
    for sc in &cmd.subcommands {
        let t = execute(&sub(&sc.name, vec![]), &inv);
        assert!(!matches!(t.action, NoteAction::Reply(_)), "{} is dispatched", sc.name);
        for p in &sc.params {
            let arg = match p.kind {
                ParamKind::String => s(&p.name, "user"),
                ParamKind::Boolean => b(&p.name, true),
            };
            let t = execute(&sub(&sc.name, vec![arg]), &inv);
            let carried = match (p.name.as_str(), &t.state, &t.action) {
                ("name", _, NoteAction::Lookup { name, .. }) => name.as_deref() == Some("user"),
                ("note", NoteState::CreateLookup { note, .. }, _) => note.as_deref() == Some("user"),
                ("context", _, NoteAction::Lookup { context, .. }) => *context == 7,
                ("context", _, NoteAction::List { context, .. }) => *context == 7,
                ("hidenote", NoteState::GetLookup { hidenote, .. }, _) => *hidenote == Some(true),
                _ => false,
            };
            assert!(carried, "{} {} is read", sc.name, p.name);
        }
    }
}

#[test]
fn a_run_changes_only_the_invokers_rows() {
    // key: (name, context) -> (note, owner)
    let mut table: HashMap<(String, i64), (String, i64)> = HashMap::new();
    table.insert(("shared".to_string(), 100), ("someone else's".to_string(), 8));
    table.insert(("mine".to_string(), 100), ("my note".to_string(), 7));
    let before = table.clone();
    let inv = invoker(7, Some(100));
    for opts in [
        sub("delete", vec![s("name", "shared")]),
        sub("delete", vec![s("name", "mine")]),
        sub("create", vec![s("name", "shared"), s("note", "overwrite?")]),
        sub("create", vec![s("name", "new"), s("note", "fresh")]),
    ] {
        let mut t = execute(&opts, &inv);
        loop {
            let event = match &t.action {
                NoteAction::Reply(_) => break,
                NoteAction::Lookup { name, context } => match name.as_ref().and_then(|n| table.get(&(n.clone(), *context)).map(|r| (n.clone(), r.clone()))) {
                    Some((n, (note, owner))) => NoteEvent::Found(record(&n, &note, owner, *context)),
                    None => NoteEvent::Missing,
                },
                NoteAction::Insert { name, note, owner, context } => {
                    table.insert((name.clone().unwrap(), *context), (note.clone().unwrap(), *owner));
                    NoteEvent::Done
                }
                NoteAction::Delete { name, context } => {
                    table.remove(&(name.clone().unwrap(), *context));
                    NoteEvent::Done
                }
                NoteAction::FetchUser { .. } => NoteEvent::User(user("bob", None)),
                NoteAction::List { .. } => NoteEvent::Names(vec![]),
            };
            t = step(t.state, event, &inv);
        }
    }
    assert_eq!(table.get(&("shared".to_string(), 100)), before.get(&("shared".to_string(), 100)));
    assert!(!table.contains_key(&("mine".to_string(), 100)));
    assert_eq!(table.get(&("new".to_string(), 100)), Some(&("fresh".to_string(), 7)));
    assert_eq!(table.len(), 2);
}
