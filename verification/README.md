# notes_bot

A Discord bot that keeps notes per user or per server (`/note create|get|list|delete`),
answers `/ping`, and replies to messages containing "dumb".

- `src/` is the verified library (Verus): the decisions of every command and event.
  - `commands/note.rs`: the `/note` command as a state machine (`execute` starts a run,
    `step` takes the outcome of each database query or user lookup), and its definition
    (`register`); `commands/note_laws.rs`: properties proved across its steps and against
    the definition; `commands/note_store.rs`: a model of the notes table and what a whole
    run does to it.
  - `commands/ping.rs`, `events/*.rs`: `/ping`, the message reply, the start-up plan and
    command routing.
  - `model.rs`: the plain values exchanged with Discord; `text.rs`: string helpers.
- `app/` runs it: the gateway client (serenity), the Postgres store (sqlx) and the loop
  that performs each action the library asks for.
