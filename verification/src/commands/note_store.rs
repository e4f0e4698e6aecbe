//! A model of the notes table, and what a whole run of `/note` does to it.
//!
//! The table is a map from a note's key, its name and context, to its text
//! and owner: no two rows share a key. A run is valid against the table when
//! every event is what the table gives for the action before it (no other
//! writer meanwhile), and every step is defined.

use vstd::prelude::*;
use crate::commands::note::{
    spec_execute, spec_step, step_defined, NoteActionView, NoteEventView, NoteStateView,
    TransitionView,
};
use crate::commands::note_laws::lemma_reads_never_write;
use crate::model::{CommandOptionView, InvokerView};

verus! {

/// Whether `event` is an outcome the table can give for `action`: a lookup
/// finds the row under its key (a missing name matches no row), a write may
/// fail, an insert succeeds only with a name and a text under a free key.
pub open spec fn event_fits_table(
    table: Map<(Seq<char>, i64), (Seq<char>, i64)>,
    action: NoteActionView,
    event: NoteEventView,
) -> bool {
    match action {
        NoteActionView::Reply(_) => false,
        NoteActionView::Lookup { name, context } => match event {
            NoteEventView::Found(record) => name matches Some(n) && table.contains_key((n, context))
                && record.name == n && record.context == context && record.note == table[(
            n,
            context,
            )].0 && record.owner == table[(n, context)].1,
            NoteEventView::Missing => name matches Some(n) ==> !table.contains_key((n, context)),
            NoteEventView::Failed => true,
            _ => false,
        },
        NoteActionView::Insert { name, note, context, .. } => match event {
            NoteEventView::Done => name matches Some(n) && note is Some && !table.contains_key(
                (n, context),
            ),
            NoteEventView::Failed => true,
            _ => false,
        },
        NoteActionView::List { .. } => event is Names || event is Failed,
        NoteActionView::Delete { .. } => event is Done || event is Failed,
        NoteActionView::FetchUser { .. } => event is User,
    }
}

/// The table after `action` had the outcome `event`: a successful insert
/// adds its row, a successful delete removes the row under its key; nothing
/// else changes it.
pub open spec fn apply(
    table: Map<(Seq<char>, i64), (Seq<char>, i64)>,
    action: NoteActionView,
    event: NoteEventView,
) -> Map<(Seq<char>, i64), (Seq<char>, i64)> {
    if event is Done {
        match action {
            NoteActionView::Insert { name: Some(n), note: Some(text), owner, context } => table.insert(
                (n, context),
                (text, owner),
            ),
            NoteActionView::Delete { name: Some(n), context } => table.remove((n, context)),
            _ => table,
        }
    } else {
        table
    }
}

/// Whether the events, handed in turn to the run from `t`, are valid
/// against the table.
pub open spec fn run_valid(
    table: Map<(Seq<char>, i64), (Seq<char>, i64)>,
    t: TransitionView,
    events: Seq<NoteEventView>,
    inv: InvokerView,
) -> bool
    decreases events.len(),
{
    if events.len() == 0 {
        true
    } else {
        &&& event_fits_table(table, t.action, events[0])
        &&& step_defined(t.state, events[0])
        &&& run_valid(
            apply(table, t.action, events[0]),
            spec_step(t.state, events[0], inv),
            events.drop_first(),
            inv,
        )
    }
}

/// The table after the run from `t` received the events.
pub open spec fn run_table(
    table: Map<(Seq<char>, i64), (Seq<char>, i64)>,
    t: TransitionView,
    events: Seq<NoteEventView>,
    inv: InvokerView,
) -> Map<(Seq<char>, i64), (Seq<char>, i64)>
    decreases events.len(),
{
    if events.len() == 0 {
        table
    } else {
        run_table(
            apply(table, t.action, events[0]),
            spec_step(t.state, events[0], inv),
            events.drop_first(),
            inv,
        )
    }
}

/// `after` differs from `before` only in rows owned by user `user`: every
/// row of another owner stays as it was, and every row that is new or
/// changed is the user's.
pub open spec fn only_own_rows_changed(
    before: Map<(Seq<char>, i64), (Seq<char>, i64)>,
    after: Map<(Seq<char>, i64), (Seq<char>, i64)>,
    user: u64,
) -> bool {
    &&& forall|k: (Seq<char>, i64)|
        #![trigger before.contains_key(k)]
        before.contains_key(k) && before[k].1 as u64 != user ==> after.contains_key(k) && after[k]
            == before[k]
    &&& forall|k: (Seq<char>, i64)|
        #![trigger after.contains_key(k)]
        after.contains_key(k) ==> (before.contains_key(k) && after[k] == before[k]) || after[k].1 as u64
            == user
}

/// What a transition's pending write may do to the table: an insert is the
/// invoker's under a free key; a delete's key holds, if anything, a row of
/// the invoker; a pending lookup of `create` or `delete` is for the key kept
/// in the state.
pub open spec fn writes_allowed(
    table: Map<(Seq<char>, i64), (Seq<char>, i64)>,
    t: TransitionView,
    inv: InvokerView,
) -> bool {
    &&& t.action matches NoteActionView::Insert { name, owner, context, .. } ==> owner == inv.user_id as i64
        && (name matches Some(n) ==> !table.contains_key((n, context)))
    &&& t.action matches NoteActionView::Delete { name, context } ==> (name matches Some(n) ==> (
    table.contains_key((n, context)) ==> table[(n, context)].1 as u64 == inv.user_id))
    &&& t.state matches NoteStateView::CreateLookup { name, context, .. } ==> t.action == (
    NoteActionView::Lookup { name, context: context as i64 })
    &&& t.state matches NoteStateView::DeleteLookup { name, context } ==> t.action == (
    NoteActionView::Lookup { name, context: context as i64 })
}

proof fn lemma_id_roundtrip(u: u64)
    ensures
        (u as i64) as u64 == u,
{
    assert((u as i64) as u64 == u) by (bit_vector);
}

proof fn lemma_only_own_trans(
    a: Map<(Seq<char>, i64), (Seq<char>, i64)>,
    b: Map<(Seq<char>, i64), (Seq<char>, i64)>,
    c: Map<(Seq<char>, i64), (Seq<char>, i64)>,
    user: u64,
)
    requires
        only_own_rows_changed(a, b, user),
        only_own_rows_changed(b, c, user),
    ensures
        only_own_rows_changed(a, c, user),
{
    assert forall|k: (Seq<char>, i64)| a.contains_key(k) && a[k].1 as u64 != user implies c.contains_key(k)
        && c[k] == a[k] by {
        assert(b.contains_key(k));
    }
    assert forall|k: (Seq<char>, i64)| c.contains_key(k) implies (a.contains_key(k) && c[k] == a[k])
        || c[k].1 as u64 == user by {
        assert(b.contains_key(k) ==> true);
    }
}

/// One valid step changes only the invoker's rows and keeps the pending
/// writes allowed.
proof fn lemma_one_step(
    table: Map<(Seq<char>, i64), (Seq<char>, i64)>,
    t: TransitionView,
    event: NoteEventView,
    inv: InvokerView,
)
    requires
        writes_allowed(table, t, inv),
        event_fits_table(table, t.action, event),
        step_defined(t.state, event),
    ensures
        only_own_rows_changed(table, apply(table, t.action, event), inv.user_id),
        writes_allowed(apply(table, t.action, event), spec_step(t.state, event, inv), inv),
{
    lemma_id_roundtrip(inv.user_id);
    let after = apply(table, t.action, event);
    assert forall|k: (Seq<char>, i64)| #[trigger] after.contains_key(k) implies (table.contains_key(k)
        && after[k] == table[k]) || after[k].1 as u64 == inv.user_id by {
    }
    let t1 = spec_step(t.state, event, inv);
    if t1.action is Delete {
        assert(t.state is DeleteLookup);
    }
}

proof fn lemma_run_only_own(
    table: Map<(Seq<char>, i64), (Seq<char>, i64)>,
    t: TransitionView,
    events: Seq<NoteEventView>,
    inv: InvokerView,
)
    requires
        writes_allowed(table, t, inv),
        run_valid(table, t, events, inv),
    ensures
        only_own_rows_changed(table, run_table(table, t, events, inv), inv.user_id),
    decreases events.len(),
{
    if events.len() == 0 {
    } else {
        let next = apply(table, t.action, events[0]);
        let t1 = spec_step(t.state, events[0], inv);
        lemma_one_step(table, t, events[0], inv);
        lemma_run_only_own(next, t1, events.drop_first(), inv);
        lemma_only_own_trans(table, next, run_table(next, t1, events.drop_first(), inv), inv.user_id);
    }
}

/// A run of a reading subcommand (`get` or `list`), or one already
/// answered, leaves the table as it was.
proof fn lemma_read_run_unchanged(
    table: Map<(Seq<char>, i64), (Seq<char>, i64)>,
    t: TransitionView,
    events: Seq<NoteEventView>,
    inv: InvokerView,
)
    requires
        t.state is GetLookup || t.state is GetOwner || t.state is Listing || t.state is Finished,
        !(t.action is Insert),
        !(t.action is Delete),
        run_valid(table, t, events, inv),
    ensures
        run_table(table, t, events, inv) == table,
    decreases events.len(),
{
    if events.len() > 0 {
        let t1 = spec_step(t.state, events[0], inv);
        lemma_reads_never_write(t.state, events[0], inv);
        lemma_read_run_unchanged(table, t1, events.drop_first(), inv);
    }
}

/// What a whole run of `/note` does to the notes table: whatever the table
/// answers, rows of other owners stay as they were, every row that is new or
/// changed is the invoker's, no two rows ever share a name and context (the
/// table is a map by that key), and only `create` and `delete` change the
/// table at all.
pub proof fn lemma_run_touches_only_own_notes(
    options: Seq<CommandOptionView>,
    inv: InvokerView,
    table: Map<(Seq<char>, i64), (Seq<char>, i64)>,
    events: Seq<NoteEventView>,
)
    requires
        run_valid(table, spec_execute(options, inv), events, inv),
    ensures
        only_own_rows_changed(table, run_table(table, spec_execute(options, inv), events, inv), inv.user_id),
        run_table(table, spec_execute(options, inv), events, inv) == table || (options.len() > 0 && (
        options[0].name == "create"@ || options[0].name == "delete"@)),
{
    let t = spec_execute(options, inv);
    lemma_run_only_own(table, t, events, inv);
    if !(options.len() > 0 && (options[0].name == "create"@ || options[0].name == "delete"@)) {
        lemma_read_run_unchanged(table, t, events, inv);
    }
}

} // verus!
