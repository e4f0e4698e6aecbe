use notes_bot::commands::{note, ping};
use notes_bot::events::interaction_create::{handle as route, Dispatch};
use notes_bot::events::message::handle as on_message;
use notes_bot::events::ready::{greeting, guild_id, handle as on_ready, GuildIdError};
use notes_bot::model::{CommandOption, DiscordUser, Invoker};
use notes_bot::text::{contains, str_eq, to_chars};

fn someone() -> Invoker {
    Invoker { user_id: 1, guild_id: Some(2), user: DiscordUser { name: "n".to_string(), global_name: None } }
}

#[test]
fn ping_answers_pong() {
    let f = ping::execute(&vec![]);
    assert_eq!(f.content.as_deref(), Some("Pong!"));
    assert_eq!(f.ephemeral, None);
    assert!(f.embed.is_none());
}

#[test]
fn ping_command_definition() {
    let cmd = ping::register();
    assert_eq!(cmd.name, "ping");
    assert_eq!(cmd.description, "A ping command");
    assert!(cmd.installations.is_empty());
    assert!(cmd.subcommands.is_empty());
}

#[test]
fn message_reply_when_dumb_in_any_case() {
    assert_eq!(on_message("you are DUMB").as_deref(), Some("Says you dummy stfu"));
    assert_eq!(on_message("dumbbell").as_deref(), Some("Says you dummy stfu"));
    assert_eq!(on_message("DuMb").as_deref(), Some("Says you dummy stfu"));
    assert_eq!(on_message("hello"), None);
    assert_eq!(on_message("dum b"), None);
    assert_eq!(on_message(""), None);
}

#[test]
fn guild_id_parsing() {
    assert_eq!(guild_id(Some("123")), Ok(123));
    assert_eq!(guild_id(Some("+5")), Ok(5));
    assert_eq!(guild_id(Some("007")), Ok(7));
    assert_eq!(guild_id(Some("0")), Err(GuildIdError::Zero));
    assert_eq!(guild_id(Some("+000")), Err(GuildIdError::Zero));
    assert_eq!(guild_id(Some("18446744073709551615")), Ok(u64::MAX));
    assert_eq!(guild_id(Some("18446744073709551616")), Err(GuildIdError::Invalid));
    assert_eq!(guild_id(Some("")), Err(GuildIdError::Invalid));
    assert_eq!(guild_id(Some("+")), Err(GuildIdError::Invalid));
    assert_eq!(guild_id(Some("-1")), Err(GuildIdError::Invalid));
    assert_eq!(guild_id(Some(" 1")), Err(GuildIdError::Invalid));
    assert_eq!(guild_id(Some("12a")), Err(GuildIdError::Invalid));
    assert_eq!(guild_id(None), Err(GuildIdError::Missing));
}

#[test]
fn ready_plan() {
    assert_eq!(greeting("NoteBot"), "Connected to Discord as NoteBot");
    let plan = on_ready(Some("42"));
    assert_eq!(plan.guild_id, 42);
    assert_eq!(plan.guild_commands.len(), 1);
    assert_eq!(plan.guild_commands[0].name, "ping");
    assert_eq!(plan.global_commands.len(), 1);
    assert_eq!(plan.global_commands[0].name, "note");
}

#[test]
fn interaction_routing() {
    let inv = someone();
    let opts: Vec<CommandOption> = vec![];
    match route("ping", &opts, &inv) {
        Dispatch::Reply(f) => assert_eq!(f.content.as_deref(), Some("Pong!")),
        _ => panic!("ping replies at once"),
    }
    match route("note", &opts, &inv) {
        Dispatch::Note(t) => match t.action {
            note::NoteAction::Reply(f) => assert_eq!(f.content.as_deref(), Some("ERROR: No Options Found")),
            _ => panic!("no options give an error reply"),
        },
        _ => panic!("note runs the note command"),
    }
    match route("other", &opts, &inv) {
        Dispatch::Reply(f) => {
            assert_eq!(f.content.as_deref(), Some("ERROR: Command not implemented"));
            assert_eq!(f.ephemeral, None);
        }
        _ => panic!("unknown commands reply at once"),
    }
}

#[test]
fn display_name_prefers_global_name() {
    let u = DiscordUser { name: "user".to_string(), global_name: Some("Global".to_string()) };
    assert_eq!(u.display_name(), "Global");
    let u = DiscordUser { name: "user".to_string(), global_name: None };
    assert_eq!(u.display_name(), "user");
}

#[test]
fn text_helpers() {
    assert!(str_eq("abc", "abc"));
    assert!(!str_eq("abc", "abd"));
    assert!(!str_eq("ab", "abc"));
    assert!(str_eq("", ""));
    assert!(contains("hello world", "o w"));
    assert!(contains("abc", ""));
    assert!(!contains("ab", "abc"));
    assert!(!contains("hello", "hex"));
    assert_eq!(to_chars("héllo"), vec!['h', 'é', 'l', 'l', 'o']);
}
