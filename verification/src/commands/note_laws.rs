//! Properties of the `/note` state machine that span its steps.

use vstd::prelude::*;
use crate::commands::note::{
    context_param, last_bool_arg, name_lines, note_command, plain_param,
    last_str_arg, query_context, spec_execute, spec_step, step_defined, NoteActionView,
    NoteEventView, NoteRecordView, NoteStateView,
};
use crate::model::{
    ArgValueView, ArgView, CommandOptionView, InvokerView, OptionValueView, ParamKind, UserView,
};
use crate::commands::note::TransitionView;

verus! {

/// How many more actions a state can lead to before the command is answered.
pub open spec fn pending(state: NoteStateView) -> nat {
    match state {
        NoteStateView::Finished => 0,
        NoteStateView::CreateLookup { .. } => 2,
        NoteStateView::GetLookup { .. } => 2,
        NoteStateView::DeleteLookup { .. } => 2,
        _ => 1,
    }
}

/// A run starts at most two actions away from its reply, and its first
/// action is a reply exactly when the run is over at once.
pub proof fn lemma_execute_bounded(options: Seq<CommandOptionView>, inv: InvokerView)
    ensures
        pending(spec_execute(options, inv).state) <= 2,
        (spec_execute(options, inv).action is Reply) <==> (spec_execute(options, inv).state is Finished),
{
}

/// Every step brings the run strictly closer to its reply, and a step's
/// action is a reply exactly when the run is over. With the bound above,
/// every run of the command is answered after at most three actions.
pub proof fn lemma_step_progresses(state: NoteStateView, event: NoteEventView, inv: InvokerView)
    requires
        step_defined(state, event),
    ensures
        pending(spec_step(state, event, inv).state) < pending(state),
        (spec_step(state, event, inv).action is Reply) <==> (spec_step(state, event, inv).state is Finished),
{
}

/// Every run of the command is answered after at most three actions: when
/// neither the first action nor the one after the first event is a reply, the
/// action after the second event is.
pub proof fn lemma_answered_within_three(
    options: Seq<CommandOptionView>,
    first: NoteEventView,
    second: NoteEventView,
    inv: InvokerView,
)
    requires
        !(spec_execute(options, inv).state is Finished),
        step_defined(spec_execute(options, inv).state, first),
        !(spec_step(spec_execute(options, inv).state, first, inv).state is Finished),
        step_defined(spec_step(spec_execute(options, inv).state, first, inv).state, second),
    ensures
        spec_step(spec_step(spec_execute(options, inv).state, first, inv).state, second, inv).state
            is Finished,
        spec_step(spec_step(spec_execute(options, inv).state, first, inv).state, second, inv).action
            is Reply,
{
    let s0 = spec_execute(options, inv).state;
    lemma_execute_bounded(options, inv);
    lemma_step_progresses(s0, first, inv);
    let s1 = spec_step(s0, first, inv).state;
    lemma_step_progresses(s1, second, inv);
}

/// A note is deleted only after a lookup of it showed the invoker as its
/// owner.
pub proof fn lemma_delete_only_by_owner(state: NoteStateView, event: NoteEventView, inv: InvokerView)
    requires
        step_defined(state, event),
        spec_step(state, event, inv).action is Delete,
    ensures
        state is DeleteLookup,
        event matches NoteEventView::Found(record) && record.owner as u64 == inv.user_id,
{
}

/// A note is stored only after a lookup of its name found none, and it is
/// stored as the invoker's.
pub proof fn lemma_insert_only_when_absent(state: NoteStateView, event: NoteEventView, inv: InvokerView)
    requires
        step_defined(state, event),
        spec_step(state, event, inv).action is Insert,
    ensures
        state is CreateLookup,
        event is Missing,
        spec_step(state, event, inv).action->Insert_owner == inv.user_id as i64,
{
}

/// The first action never writes: a write always follows a lookup.
pub proof fn lemma_execute_never_writes(options: Seq<CommandOptionView>, inv: InvokerView)
    ensures
        !(spec_execute(options, inv).action is Insert),
        !(spec_execute(options, inv).action is Delete),
{
}

/// `create` stores the note under the very name and context that its lookup
/// found free.
pub proof fn lemma_create_writes_looked_up_key(options: Seq<CommandOptionView>, inv: InvokerView)
    requires
        spec_execute(options, inv).state is CreateLookup,
    ensures
        spec_execute(options, inv).action matches NoteActionView::Lookup { name, context }
            && spec_step(spec_execute(options, inv).state, NoteEventView::Missing, inv).action
            matches NoteActionView::Insert { name: n, context: c, .. } && n == name && c == context,
{
}

/// `delete` removes the note under the very name and context whose lookup
/// showed the invoker as owner.
pub proof fn lemma_delete_removes_looked_up_key(
    options: Seq<CommandOptionView>,
    inv: InvokerView,
    record: NoteRecordView,
)
    requires
        spec_execute(options, inv).state is DeleteLookup,
        record.owner as u64 == inv.user_id,
    ensures
        spec_execute(options, inv).action matches NoteActionView::Lookup { name, context }
            && spec_step(spec_execute(options, inv).state, NoteEventView::Found(record), inv).action
            == (NoteActionView::Delete { name, context }),
{
}

/// `get` and `list` never write.
pub proof fn lemma_reads_never_write(state: NoteStateView, event: NoteEventView, inv: InvokerView)
    requires
        state is GetLookup || state is GetOwner || state is Listing,
        step_defined(state, event),
    ensures
        !(spec_step(state, event, inv).action is Insert),
        !(spec_step(state, event, inv).action is Delete),
{
}

/// `list` asks only for the invoker's own notes.
pub proof fn lemma_list_only_own_notes(options: Seq<CommandOptionView>, inv: InvokerView)
    requires
        spec_execute(options, inv).action is List,
    ensures
        spec_execute(options, inv).action->List_owner == inv.user_id as i64,
{
}

/// Every answer is shown only to the invoker, except a note shown by `get`
/// (whose visibility the `hidenote` option sets) and the answer to a first
/// option that is not a subcommand.
pub proof fn lemma_replies_private(
    options: Seq<CommandOptionView>,
    state: NoteStateView,
    event: NoteEventView,
    inv: InvokerView,
)
    requires
        step_defined(state, event),
    ensures
        spec_execute(options, inv).action matches NoteActionView::Reply(f) ==> (f.ephemeral == Some(true)
            || (options.len() > 0 && options[0].value is Other)),
        spec_step(state, event, inv).action matches NoteActionView::Reply(f) ==> (f.ephemeral == Some(true)
            || state is GetOwner),
{
}

/// With the context `user`, a command works on the invoker's own notes,
/// whichever server it is run in.
pub proof fn lemma_user_context_follows_user(inv1: InvokerView, inv2: InvokerView)
    requires
        inv1.user_id == inv2.user_id,
    ensures
        query_context(Some("user"@), inv1) == inv1.user_id,
        query_context(Some("user"@), inv1) == query_context(Some("user"@), inv2),
{
}

/// In a server, any context but `user` works on the server's notes, the same
/// for every member.
pub proof fn lemma_server_context_shared(
    context: Option<Seq<char>>,
    inv1: InvokerView,
    inv2: InvokerView,
    guild: u64,
)
    requires
        context != Some("user"@),
        inv1.guild_id == Some(guild),
        inv2.guild_id == Some(guild),
    ensures
        query_context(context, inv1) == guild,
        query_context(context, inv2) == guild,
{
}

/// Two subcommands given the same name and context by the same user in the
/// same place look up the same note.
pub proof fn lemma_same_options_same_note(
    options1: Seq<CommandOptionView>,
    options2: Seq<CommandOptionView>,
    inv1: InvokerView,
    inv2: InvokerView,
)
    requires
        options1.len() > 0,
        options2.len() > 0,
        options1[0].value matches OptionValueView::SubCommand(a1) && options2[0].value
            matches OptionValueView::SubCommand(a2) && last_str_arg(a1, "name"@) == last_str_arg(
            a2,
            "name"@,
        ) && last_str_arg(a1, "context"@) == last_str_arg(a2, "context"@),
        inv1.user_id == inv2.user_id,
        inv1.guild_id == inv2.guild_id,
        spec_execute(options1, inv1).action is Lookup,
        spec_execute(options2, inv2).action is Lookup,
    ensures
        spec_execute(options1, inv1).action == spec_execute(options2, inv2).action,
{
}


// ---------------------------------------------------------------------------
// The command's definition against what `execute` reads
// ---------------------------------------------------------------------------

/// The options Discord sends for the subcommand `name` with these values.
pub open spec fn subcommand_option(name: Seq<char>, args: Seq<ArgView>) -> Seq<CommandOptionView> {
    seq![CommandOptionView { name, value: OptionValueView::SubCommand(args) }]
}

/// `v` is a value of a parameter of this kind.
pub open spec fn value_of_kind(kind: ParamKind, v: ArgValueView) -> bool {
    (kind == ParamKind::String && v is Str) || (kind == ParamKind::Boolean && v is Bool)
}

/// The run started by `t` holds the value `v` given to the parameter `key`:
/// a name is what the lookup asks for, a note text is kept for the insert,
/// a context decides the id the query works on (and, for `list`, the title),
/// `hidenote` is kept for the reply.
pub open spec fn carries(t: TransitionView, key: Seq<char>, v: ArgValueView, inv: InvokerView) -> bool {
    match v {
        ArgValueView::Str(s) => if key == "name"@ {
            t.action matches NoteActionView::Lookup { name, .. } && name == Some(s)
        } else if key == "note"@ {
            t.state matches NoteStateView::CreateLookup { note, .. } && note == Some(s)
        } else if key == "context"@ {
            ||| (t.action matches NoteActionView::Lookup { context, .. } && context == query_context(
                Some(s),
                inv,
            ) as i64)
            ||| (t.action matches NoteActionView::List { context, .. } && context == query_context(
                Some(s),
                inv,
            ) as i64 && (t.state matches NoteStateView::Listing { context_text }
                && context_text == s))
        } else {
            false
        },
        ArgValueView::Bool(b) => key == "hidenote"@ && (t.state matches NoteStateView::GetLookup {
            hidenote,
            ..
        } && hidenote == Some(b)),
        ArgValueView::Other => false,
    }
}

proof fn lemma_literals_distinct()
    ensures
        "create"@ != "get"@,
        "create"@ != "list"@,
        "create"@ != "delete"@,
        "get"@ != "list"@,
        "get"@ != "delete"@,
        "list"@ != "delete"@,
        "name"@ != "note"@,
        "name"@ != "context"@,
        "note"@ != "context"@,
        "name"@ != "hidenote"@,
        "note"@ != "hidenote"@,
        "context"@ != "hidenote"@,
{
    reveal_strlit("create");
    reveal_strlit("get");
    reveal_strlit("list");
    reveal_strlit("delete");
    reveal_strlit("name");
    reveal_strlit("note");
    reveal_strlit("context");
    reveal_strlit("hidenote");
    assert("create"@[0] != "get"@[0]);
    assert("create"@[0] != "list"@[0]);
    assert("create"@[0] != "delete"@[0]);
    assert("get"@[0] != "list"@[0]);
    assert("get"@[0] != "delete"@[0]);
    assert("list"@[0] != "delete"@[0]);
    assert("name"@[2] != "note"@[2]);
    assert("name"@[0] != "context"@[0]);
    assert("note"@[0] != "context"@[0]);
    assert("name"@[0] != "hidenote"@[0]);
    assert("note"@[0] != "hidenote"@[0]);
    assert("context"@[0] != "hidenote"@[0]);
}

/// Every subcommand the definition of `/note` offers is one `execute`
/// dispatches on: whatever options it comes with, it never gets the
/// not-implemented answer, and starts with a query.
pub proof fn lemma_offered_subcommands_dispatched(i: int, args: Seq<ArgView>, inv: InvokerView)
    requires
        0 <= i < note_command().subcommands.len(),
    ensures
        !(spec_execute(subcommand_option(note_command().subcommands[i].name, args), inv).state is Finished),
        !(spec_execute(subcommand_option(note_command().subcommands[i].name, args), inv).action is Reply),
{
    lemma_literals_distinct();
}

/// Every parameter the definition of `/note` offers for a subcommand is one
/// `execute` reads: a value of the parameter's kind, given to it, is carried
/// by the run.
pub proof fn lemma_offered_params_read(i: int, j: int, v: ArgValueView, inv: InvokerView)
    requires
        0 <= i < note_command().subcommands.len(),
        0 <= j < note_command().subcommands[i].params.len(),
        value_of_kind(note_command().subcommands[i].params[j].kind, v),
    ensures
        carries(
            spec_execute(
                subcommand_option(
                    note_command().subcommands[i].name,
                    seq![ArgView { name: note_command().subcommands[i].params[j].name, value: v }],
                ),
                inv,
            ),
            note_command().subcommands[i].params[j].name,
            v,
            inv,
        ),
{
    lemma_literals_distinct();
    reveal_with_fuel(last_str_arg, 2);
    reveal_with_fuel(last_bool_arg, 2);
    let sc = note_command().subcommands[i];
    let p = sc.params[j];
    let args = seq![ArgView { name: p.name, value: v }];
    assert(args.drop_last() =~= Seq::<ArgView>::empty());
    assert(args.last() == ArgView { name: p.name, value: v });
}

/// The subcommands whose answers show the note's name (`create`, `get`,
/// `delete`) offer `name` as a required string parameter; and with the name
/// given, their runs can take every outcome of their queries and of the
/// user lookup that follows a found note.
pub proof fn lemma_required_name_lets_runs_finish(
    i: int,
    args: Seq<ArgView>,
    inv: InvokerView,
    record: NoteRecordView,
    owner: UserView,
)
    requires
        0 <= i < note_command().subcommands.len(),
        note_command().subcommands[i].name != "list"@,
        last_str_arg(args, "name"@) is Some,
    ensures
        note_command().subcommands[i].params[0] == plain_param(
            ParamKind::String,
            "name"@,
            note_command().subcommands[i].params[0].description,
            true,
        ),
        ({
            let s = spec_execute(subcommand_option(note_command().subcommands[i].name, args), inv).state;
            &&& step_defined(s, NoteEventView::Found(record))
            &&& step_defined(s, NoteEventView::Missing)
            &&& step_defined(s, NoteEventView::Failed)
            &&& !(s is DeleteLookup) ==> step_defined(
                spec_step(s, NoteEventView::Found(record), inv).state,
                NoteEventView::User(owner),
            )
            &&& s is CreateLookup ==> step_defined(spec_step(s, NoteEventView::Missing, inv).state, NoteEventView::Done)
            &&& s is DeleteLookup && spec_step(s, NoteEventView::Found(record), inv).action is Delete
                ==> step_defined(spec_step(s, NoteEventView::Found(record), inv).state, NoteEventView::Done)
        }),
{
    lemma_literals_distinct();
    let opts = subcommand_option(note_command().subcommands[i].name, args);
    let s = spec_execute(opts, inv).state;
    let n = last_str_arg(args, "name"@);
    assert(opts[0].value == OptionValueView::SubCommand(args));
    if i == 0 {
        assert(opts[0].name == "create"@);
        assert(s matches NoteStateView::CreateLookup { name, .. } && name == n);
    } else if i == 1 {
        assert(opts[0].name == "get"@);
        assert(s matches NoteStateView::GetLookup { name, .. } && name == n);
    } else {
        assert(i == 3);
        assert(opts[0].name == "delete"@);
        assert(s matches NoteStateView::DeleteLookup { name, .. } && name == n);
    }
}


// ---------------------------------------------------------------------------
// What each subcommand does with the values given to it
// ---------------------------------------------------------------------------

/// No option of `args` gives a string to `key`.
pub open spec fn no_str_for(args: Seq<ArgView>, key: Seq<char>) -> bool {
    forall|k: int| 0 <= k < args.len() ==> !(#[trigger] args[k].name == key && args[k].value is Str)
}

/// No option of `args` gives a boolean to `key`.
pub open spec fn no_bool_for(args: Seq<ArgView>, key: Seq<char>) -> bool {
    forall|k: int| 0 <= k < args.len() ==> !(#[trigger] args[k].name == key && args[k].value is Bool)
}

proof fn lemma_last_str_after(pre: Seq<ArgView>, key: Seq<char>, v: Seq<char>, post: Seq<ArgView>)
    requires
        no_str_for(post, key),
    ensures
        last_str_arg(pre.push(ArgView { name: key, value: ArgValueView::Str(v) }) + post, key) == Some(v),
    decreases post.len(),
{
    let a = ArgView { name: key, value: ArgValueView::Str(v) };
    let all = pre.push(a) + post;
    if post.len() == 0 {
        assert(all =~= pre.push(a));
        assert(all.last() == a);
    } else {
        assert(all.drop_last() =~= pre.push(a) + post.drop_last());
        assert(all.last() == post[post.len() - 1]);
        assert(no_str_for(post.drop_last(), key)) by {
            assert forall|k: int| 0 <= k < post.drop_last().len() implies !(
            #[trigger] post.drop_last()[k].name == key && post.drop_last()[k].value is Str) by {
                assert(post.drop_last()[k] == post[k]);
            }
        }
        lemma_last_str_after(pre, key, v, post.drop_last());
    }
}

proof fn lemma_last_bool_after(pre: Seq<ArgView>, key: Seq<char>, b: bool, post: Seq<ArgView>)
    requires
        no_bool_for(post, key),
    ensures
        last_bool_arg(pre.push(ArgView { name: key, value: ArgValueView::Bool(b) }) + post, key) == Some(b),
    decreases post.len(),
{
    let a = ArgView { name: key, value: ArgValueView::Bool(b) };
    let all = pre.push(a) + post;
    if post.len() == 0 {
        assert(all =~= pre.push(a));
        assert(all.last() == a);
    } else {
        assert(all.drop_last() =~= pre.push(a) + post.drop_last());
        assert(all.last() == post[post.len() - 1]);
        assert(no_bool_for(post.drop_last(), key)) by {
            assert forall|k: int| 0 <= k < post.drop_last().len() implies !(
            #[trigger] post.drop_last()[k].name == key && post.drop_last()[k].value is Bool) by {
                assert(post.drop_last()[k] == post[k]);
            }
        }
        lemma_last_bool_after(pre, key, b, post.drop_last());
    }
}

proof fn lemma_no_bool_none(args: Seq<ArgView>, key: Seq<char>)
    requires
        no_bool_for(args, key),
    ensures
        last_bool_arg(args, key) is None,
    decreases args.len(),
{
    if args.len() > 0 {
        assert(args.last() == args[args.len() - 1]);
        assert(no_bool_for(args.drop_last(), key)) by {
            assert forall|k: int| 0 <= k < args.drop_last().len() implies !(
            #[trigger] args.drop_last()[k].name == key && args.drop_last()[k].value is Bool) by {
                assert(args.drop_last()[k] == args[k]);
            }
        }
        lemma_no_bool_none(args.drop_last(), key);
    }
}

/// `create` stores the text given to `note`: whatever options come before
/// it, and whatever options come after it that give `note` no other text
/// (such as `context` or `name`), when the name is free the insert carries
/// exactly that text.
pub proof fn lemma_create_stores_given_note(
    pre: Seq<ArgView>,
    text: Seq<char>,
    post: Seq<ArgView>,
    inv: InvokerView,
)
    requires
        no_str_for(post, "note"@),
    ensures
        ({
            let args = pre.push(ArgView { name: "note"@, value: ArgValueView::Str(text) }) + post;
            let t = spec_execute(subcommand_option("create"@, args), inv);
            spec_step(t.state, NoteEventView::Missing, inv).action matches NoteActionView::Insert {
                note,
                ..
            } && note == Some(text)
        }),
{
    lemma_last_str_after(pre, "note"@, text, post);
}

/// `get` shows a found note only to the invoker exactly as `hidenote` asks:
/// with a `hidenote` value given, followed by no other `hidenote` value,
/// the reply's ephemeral flag is that value, whatever else (`context`,
/// `name`, ...) is given with it.
pub proof fn lemma_get_visibility_follows_hidenote(
    pre: Seq<ArgView>,
    hide: bool,
    post: Seq<ArgView>,
    inv: InvokerView,
    record: NoteRecordView,
    owner: UserView,
)
    requires
        no_bool_for(post, "hidenote"@),
    ensures
        ({
            let args = pre.push(ArgView { name: "hidenote"@, value: ArgValueView::Bool(hide) }) + post;
            let t = spec_execute(subcommand_option("get"@, args), inv);
            let t1 = spec_step(t.state, NoteEventView::Found(record), inv);
            spec_step(t1.state, NoteEventView::User(owner), inv).action matches NoteActionView::Reply(f)
                && f.ephemeral == Some(hide)
        }),
{
    lemma_literals_distinct();
    lemma_last_bool_after(pre, "hidenote"@, hide, post);
}

/// Without any `hidenote` value, `get` leaves a found note's visibility
/// unset, which shows it to everyone.
pub proof fn lemma_get_without_hidenote_is_public(
    args: Seq<ArgView>,
    inv: InvokerView,
    record: NoteRecordView,
    owner: UserView,
)
    requires
        no_bool_for(args, "hidenote"@),
    ensures
        ({
            let t = spec_execute(subcommand_option("get"@, args), inv);
            let t1 = spec_step(t.state, NoteEventView::Found(record), inv);
            spec_step(t1.state, NoteEventView::User(owner), inv).action matches NoteActionView::Reply(f)
                && f.ephemeral is None
        }),
{
    lemma_literals_distinct();
    lemma_no_bool_none(args, "hidenote"@);
}

/// The text of the `Notes` field of a `list` reply.
pub open spec fn listed_text(t: TransitionView) -> Seq<char> {
    match t.action {
        NoteActionView::Reply(f) => match f.embed {
            Some(e) => e.field_value,
            None => Seq::empty(),
        },
        _ => Seq::empty(),
    }
}

proof fn lemma_name_lines_concat(a: Seq<Seq<char>>, b: Seq<Seq<char>>)
    ensures
        name_lines(a + b) == name_lines(a) + name_lines(b),
    decreases b.len(),
{
    if b.len() == 0 {
        assert(a + b =~= a);
        assert(name_lines(a) + name_lines(b) =~= name_lines(a));
    } else {
        assert((a + b).drop_last() =~= a + b.drop_last());
        assert((a + b).last() == b.last());
        lemma_name_lines_concat(a, b.drop_last());
        assert(name_lines(a + b) =~= name_lines(a) + name_lines(b));
    }
}

/// `list` lists every name the query returns, each on a line of its own, in
/// the order returned: listing `a + b` gives the listing of `a` followed by
/// that of `b`; one name `x` gives `x` and a newline; no name gives nothing.
/// The listing always comes as an embed shown only to the invoker.
pub proof fn lemma_list_shows_every_name(
    args: Seq<ArgView>,
    inv: InvokerView,
    a: Seq<Seq<char>>,
    b: Seq<Seq<char>>,
    x: Seq<char>,
)
    ensures
        ({
            let s = spec_execute(subcommand_option("list"@, args), inv).state;
            &&& listed_text(spec_step(s, NoteEventView::Names(a + b), inv)) == listed_text(
                spec_step(s, NoteEventView::Names(a), inv),
            ) + listed_text(spec_step(s, NoteEventView::Names(b), inv))
            &&& listed_text(spec_step(s, NoteEventView::Names(seq![x]), inv)) == x + "\n"@
            &&& listed_text(spec_step(s, NoteEventView::Names(Seq::empty()), inv)) == Seq::<char>::empty()
            &&& spec_step(s, NoteEventView::Names(a), inv).action matches NoteActionView::Reply(f)
                && f.embed is Some && f.ephemeral == Some(true)
        }),
{
    lemma_literals_distinct();
    lemma_name_lines_concat(a, b);
    let one = seq![x];
    assert(one.drop_last() =~= Seq::<Seq<char>>::empty());
    assert(Seq::<char>::empty() + x + "\n"@ =~= x + "\n"@);
}

/// In the definition of `/note`, a parameter is required exactly when it is
/// a note's `name` or text (`note`): `context` and `hidenote` are optional.
pub proof fn lemma_only_names_required()
    ensures
        forall|i: int, j: int|
            0 <= i < note_command().subcommands.len() && 0 <= j
                < note_command().subcommands[i].params.len() ==> (
            #[trigger] note_command().subcommands[i].params[j].required
                <==> (note_command().subcommands[i].params[j].name == "name"@
                || note_command().subcommands[i].params[j].name == "note"@)),
{
    lemma_literals_distinct();
    let subs = note_command().subcommands;
    assert forall|i: int, j: int|
        0 <= i < subs.len() && 0 <= j < subs[i].params.len() implies (
        #[trigger] subs[i].params[j].required <==> (subs[i].params[j].name == "name"@
        || subs[i].params[j].name == "note"@)) by {
        assert(0 <= i <= 3);
        let ps = subs[i].params;
        if i == 0 {
            assert(ps == seq![
                plain_param(ParamKind::String, "name"@, "The name of the note to create"@, true),
                plain_param(ParamKind::String, "note"@, "The note to be saved"@, true),
                context_param(),
            ]);
            if j == 0 {} else if j == 1 {} else { assert(j == 2); }
        } else if i == 1 {
            if j == 0 {} else if j == 1 {} else { assert(j == 2); }
        } else if i == 2 {
            assert(j == 0);
        } else {
            if j == 0 {} else { assert(j == 1); }
        }
    }
}


/// `create`, `get` and `delete` look up the name given to `name`: whatever
/// options come before it, and whatever options after it give `name` no
/// other text.
pub proof fn lemma_lookup_uses_given_name(
    sub: Seq<char>,
    pre: Seq<ArgView>,
    name: Seq<char>,
    post: Seq<ArgView>,
    inv: InvokerView,
)
    requires
        sub == "create"@ || sub == "get"@ || sub == "delete"@,
        no_str_for(post, "name"@),
    ensures
        spec_execute(
            subcommand_option(sub, pre.push(ArgView { name: "name"@, value: ArgValueView::Str(name) }) + post),
            inv,
        ).action matches NoteActionView::Lookup { name: n, .. } && n == Some(name),
{
    lemma_literals_distinct();
    lemma_last_str_after(pre, "name"@, name, post);
}

/// The id a subcommand's query works on, for the context given: the
/// invoker's id for `user`; for any other value the server's id, or the
/// invoker's id outside a server. For `list` the given context also names
/// the listing.
pub proof fn lemma_given_context_picks_id(
    sub: Seq<char>,
    pre: Seq<ArgView>,
    context: Seq<char>,
    post: Seq<ArgView>,
    inv: InvokerView,
)
    requires
        sub == "create"@ || sub == "get"@ || sub == "list"@ || sub == "delete"@,
        no_str_for(post, "context"@),
    ensures
        ({
            let t = spec_execute(
                subcommand_option(sub, pre.push(ArgView { name: "context"@, value: ArgValueView::Str(context) }) + post),
                inv,
            );
            let id: u64 = if context == "user"@ {
                inv.user_id
            } else if inv.guild_id is Some {
                inv.guild_id->0
            } else {
                inv.user_id
            };
            &&& t.action matches NoteActionView::Lookup { context: c, .. } ==> c == id as i64
            &&& t.action matches NoteActionView::List { context: c, .. } ==> c == id as i64
            &&& t.action is Lookup || t.action is List
            &&& t.state matches NoteStateView::Listing { context_text } ==> context_text == context
        }),
{
    lemma_literals_distinct();
    lemma_last_str_after(pre, "context"@, context, post);
}

proof fn lemma_no_str_none(args: Seq<ArgView>, key: Seq<char>)
    requires
        no_str_for(args, key),
    ensures
        last_str_arg(args, key) is None,
    decreases args.len(),
{
    if args.len() > 0 {
        assert(args.last() == args[args.len() - 1]);
        assert(no_str_for(args.drop_last(), key)) by {
            assert forall|k: int| 0 <= k < args.drop_last().len() implies !(
            #[trigger] args.drop_last()[k].name == key && args.drop_last()[k].value is Str) by {
                assert(args.drop_last()[k] == args[k]);
            }
        }
        lemma_no_str_none(args.drop_last(), key);
    }
}

/// Without a context, a subcommand works on the server's notes, or the
/// invoker's own outside a server; `list` then names the listing `server`.
pub proof fn lemma_no_context_means_server(sub: Seq<char>, args: Seq<ArgView>, inv: InvokerView)
    requires
        sub == "create"@ || sub == "get"@ || sub == "list"@ || sub == "delete"@,
        no_str_for(args, "context"@),
    ensures
        ({
            let t = spec_execute(subcommand_option(sub, args), inv);
            let id: u64 = if inv.guild_id is Some {
                inv.guild_id->0
            } else {
                inv.user_id
            };
            &&& t.action matches NoteActionView::Lookup { context: c, .. } ==> c == id as i64
            &&& t.action matches NoteActionView::List { context: c, .. } ==> c == id as i64
            &&& t.action is Lookup || t.action is List
            &&& t.state matches NoteStateView::Listing { context_text } ==> context_text == "server"@
        }),
{
    lemma_literals_distinct();
    lemma_no_str_none(args, "context"@);
}

/// `get` shows the note it found: the reply starts with the owner's shown
/// name in backticks and ends with the note's name, a backtick, a colon, a
/// newline and the note's text.
pub proof fn lemma_get_shows_found_note(
    args: Seq<ArgView>,
    inv: InvokerView,
    record: NoteRecordView,
    owner: UserView,
)
    ensures
        ({
            let t = spec_execute(subcommand_option("get"@, args), inv);
            let t1 = spec_step(t.state, NoteEventView::Found(record), inv);
            let tail = record.name + "`:\n"@ + record.note;
            let head = "`"@ + owner.display_name() + "`'s "@;
            spec_step(t1.state, NoteEventView::User(owner), inv).action matches NoteActionView::Reply(f)
                && f.content matches Some(c) && c.len() >= head.len() + tail.len()
                && c.subrange(0, head.len() as int) == head && c.subrange(
                c.len() - tail.len(),
                c.len() as int,
            ) == tail
        }),
{
    lemma_literals_distinct();
    let t = spec_execute(subcommand_option("get"@, args), inv);
    let t1 = spec_step(t.state, NoteEventView::Found(record), inv);
    let owner_name = owner.display_name();
    let label = crate::commands::note::context_label(record.context, inv);
    let c = crate::commands::note::shown_text(owner_name, label, record.name, record.note);
    let head = "`"@ + owner_name + "`'s "@;
    let mid = label + " note `"@;
    let tail = record.name + "`:\n"@ + record.note;
    assert(c =~= head + mid + tail);
    assert((head + mid + tail).subrange(0, head.len() as int) =~= head);
    assert((head + mid + tail).subrange(c.len() - tail.len(), c.len() as int) =~= tail);
}

} // verus!
