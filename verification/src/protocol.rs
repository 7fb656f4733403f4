//! The handoff as a transition system over what can be observed of a
//! variable, and what holds of every run of it.

use crate::import::FerVarStatus;
use crate::typed::array::{array_stored, taken};
use crate::typed::scalar::scalar_stored;
use crate::typed::{acquire_poll, acquire_step, AcquireStep};
use crate::variable::{
    begun, commit_record, committed, edge_side, ended, host_stored, legal_edge, legal_trace,
    registered, requested, resized, stored, value_owner, Side, Stage, VariableView, UNHANDLED,
};
use vstd::prelude::*;

verus! {

/// One operation on a variable, by either party.
pub enum Event {
    /// User: a poll puts a waker in the slot.
    Register(u64),
    /// User: ask the host for processing.
    Request,
    /// User: write one element of the value.
    Store(int, u64),
    /// User: set the length of the value.
    Resize(nat),
    /// User: commit with a status and a message.
    Commit(FerVarStatus, Seq<char>),
    /// Host: processing begins.
    ProcBegin,
    /// Host: the cycle ends.
    ProcEnd,
    /// Host: replace the value by a length and elements.
    HostStore(nat, Seq<u64>),
}

/// The party that performs an event.
pub open spec fn event_side(event: Event) -> Side {
    match event {
        Event::ProcBegin | Event::ProcEnd | Event::HostStore(_, _) => Side::Host,
        _ => Side::User,
    }
}

/// Whether an event may happen to a variable.
pub open spec fn enabled(var: VariableView, event: Event) -> bool {
    match event {
        Event::Register(_) => true,
        Event::Request => var.stage == Stage::Idle,
        Event::Store(index, _) => var.stage == Stage::Processing && 0 <= index < var.cells.len(),
        Event::Resize(len) => var.stage == Stage::Processing && len <= var.info.max_len,
        Event::Commit(_, _) => var.stage == Stage::Processing,
        Event::ProcBegin => var.stage == Stage::Idle || var.stage == Stage::Requested,
        Event::ProcEnd => var.stage == Stage::Committed,
        Event::HostStore(len, cells) => var.stage != Stage::Processing && cells.len()
            == var.info.spec_cells() && len <= var.info.max_len,
    }
}

/// The variable after an event.
pub open spec fn step(var: VariableView, event: Event) -> VariableView {
    match event {
        Event::Register(waker) => registered(var, waker),
        Event::Request => requested(var),
        Event::Store(index, bits) => stored(var, index, bits),
        Event::Resize(len) => resized(var, len),
        Event::Commit(status, message) => VariableView {
            stage: Stage::Committed,
            history: var.history.push(Stage::Committed),
            commits: var.commits.push((status, message)),
            ..var
        },
        Event::ProcBegin => begun(var),
        Event::ProcEnd => ended(var),
        Event::HostStore(len, cells) => host_stored(var, len, cells),
    }
}

/// The variable after a sequence of events, if each may happen in its turn.
pub open spec fn run(var: VariableView, events: Seq<Event>) -> Option<VariableView>
    decreases events.len(),
{
    if events.len() == 0 {
        Some(var)
    } else if enabled(var, events[0]) {
        run(step(var, events[0]), events.skip(1))
    } else {
        None
    }
}

/// A commit is the event of its status and message.
pub proof fn lemma_commit_is_event(var: VariableView, status: Result<(), &str>)
    ensures
        committed(var, status) == step(
            var,
            Event::Commit(commit_record(status).0, commit_record(status).1),
        ),
{
}

/// An event leaves the stage where it is or moves it along one of the five
/// legal edges, and the history grows by exactly the stage entered.
pub proof fn lemma_step_takes_legal_edge(var: VariableView, event: Event)
    requires
        enabled(var, event),
    ensures
        (step(var, event).stage == var.stage && step(var, event).history == var.history) || (
        legal_edge(var.stage, step(var, event).stage) && step(var, event).history
            == var.history.push(step(var, event).stage)),
{
}

/// An event keeps a variable well formed: its history stays a legal trace
/// that ends at its stage, and its value stays within its storage.
pub proof fn lemma_step_keeps_inv(var: VariableView, event: Event)
    requires
        var.inv(),
        enabled(var, event),
    ensures
        step(var, event).inv(),
{
    lemma_step_takes_legal_edge(var, event);
    let next = step(var, event);
    if next.history != var.history {
        assert forall|i: int| 0 <= i < next.history.len() - 1 implies legal_edge(
            #[trigger] next.history[i],
            next.history[i + 1],
        ) by {
            if i < var.history.len() - 1 {
                assert(legal_edge(var.history[i], var.history[i + 1]));
            }
        }
    }
}

/// Whatever host and user do in whatever order, the variable stays well
/// formed: the stages that it has passed form a legal trace that ends at
/// its present stage, and what it had passed before is kept.
pub proof fn lemma_run_keeps_inv(var: VariableView, events: Seq<Event>)
    requires
        var.inv(),
        run(var, events) is Some,
    ensures
        run(var, events).unwrap().inv(),
        var.history.is_prefix_of(run(var, events).unwrap().history),
    decreases events.len(),
{
    if events.len() > 0 {
        lemma_step_keeps_inv(var, events[0]);
        lemma_step_takes_legal_edge(var, events[0]);
        lemma_run_keeps_inv(step(var, events[0]), events.skip(1));
    }
}

/// Whether an event can change the value.
pub open spec fn touches_value(event: Event) -> bool {
    event is Store || event is Resize || event is HostStore
}

/// A run without an event that touches the value leaves the value as it
/// was.
pub proof fn lemma_run_keeps_value(var: VariableView, events: Seq<Event>)
    requires
        run(var, events) is Some,
        forall|i: int| 0 <= i < events.len() ==> !touches_value(#[trigger] events[i]),
    ensures
        run(var, events).unwrap().cells == var.cells,
        run(var, events).unwrap().len == var.len,
        run(var, events).unwrap().info == var.info,
    decreases events.len(),
{
    if events.len() > 0 {
        assert(!touches_value(events[0]));
        assert forall|i: int| 0 <= i < events.skip(1).len() implies !touches_value(
            #[trigger] events.skip(1)[i],
        ) by {
            assert(events.skip(1)[i] == events[i + 1]);
        }
        lemma_run_keeps_value(step(var, events[0]), events.skip(1));
    }
}

/// A stage is entered only by the party to which the edge belongs: the
/// user requests and commits, the host begins and ends.
pub proof fn lemma_edge_belongs_to_side(var: VariableView, event: Event)
    requires
        enabled(var, event),
        step(var, event).stage != var.stage,
    ensures
        event_side(event) == edge_side(step(var, event).stage),
{
}

/// The value is changed only by the party that owns it at the stage: by the
/// user while the variable is being processed, by the host otherwise.
pub proof fn lemma_value_changes_by_owner(var: VariableView, event: Event)
    requires
        enabled(var, event),
        step(var, event).cells != var.cells || step(var, event).len != var.len,
    ensures
        event_side(event) == value_owner(var.stage),
{
}

/// A transition by the host empties the waker slot: the waker that was
/// registered is the one handed back to be woken.
pub proof fn lemma_host_transition_wakes(var: VariableView, event: Event)
    requires
        enabled(var, event),
        event_side(event) == Side::Host,
        step(var, event).stage != var.stage,
    ensures
        step(var, event).waker is None,
{
}

/// A value guard that is given up leaves the variable committed, so the
/// host can end the cycle, and the variable is idle once it has.
pub proof fn lemma_released_guard_frees_host(var: VariableView)
    requires
        var.inv(),
        var.stage == Stage::Processing,
    ensures
        committed(var, Err(UNHANDLED)).inv(),
        enabled(committed(var, Err(UNHANDLED)), Event::ProcEnd),
        ended(committed(var, Err(UNHANDLED))).stage == Stage::Idle,
        ended(committed(var, Err(UNHANDLED))).inv(),
{
    lemma_commit_is_event(var, Err(UNHANDLED));
    lemma_step_keeps_inv(
        var,
        Event::Commit(commit_record(Err(UNHANDLED)).0, commit_record(Err(UNHANDLED)).1),
    );
    lemma_step_keeps_inv(committed(var, Err(UNHANDLED)), Event::ProcEnd);
}

/// Whenever the host ends a cycle the variable is idle, whatever futures
/// were given up before.
pub proof fn lemma_cycle_ends_idle(var: VariableView, events: Seq<Event>)
    requires
        var.inv(),
        events.len() > 0,
        events.last() == Event::ProcEnd,
        run(var, events) is Some,
    ensures
        run(var, events).unwrap().stage == Stage::Idle,
    decreases events.len(),
{
    if events.len() == 1 {
        assert(events[0] == Event::ProcEnd);
        assert(events.skip(1).len() == 0);
        assert(run(step(var, events[0]), events.skip(1)) == Some(step(var, events[0])));
    } else {
        lemma_step_keeps_inv(var, events[0]);
        assert(events.skip(1).last() == events.last());
        lemma_cycle_ends_idle(step(var, events[0]), events.skip(1));
    }
}

/// Each stage of `history` is followed along a legal edge.
pub open spec fn legal_steps(history: Seq<Stage>) -> bool {
    forall|i: int| 0 <= i < history.len() - 1 ==> legal_edge(#[trigger] history[i], history[i + 1])
}

/// `history` begins a sequence of cycles, each of which is `Idle`,
/// `Processing`, `Committed`, with or without `Requested` behind `Idle`.
pub open spec fn cycle_prefix(history: Seq<Stage>) -> bool
    decreases history.len(),
{
    if history.len() == 0 {
        true
    } else if history[0] != Stage::Idle {
        false
    } else if history.len() == 1 {
        true
    } else if history[1] == Stage::Requested {
        history.len() == 2 || (history[2] == Stage::Processing && (history.len() == 3 || (history[3]
            == Stage::Committed && cycle_prefix(history.skip(4)))))
    } else if history[1] == Stage::Processing {
        history.len() == 2 || (history[2] == Stage::Committed && cycle_prefix(history.skip(3)))
    } else {
        false
    }
}

proof fn lemma_steps_form_cycles(history: Seq<Stage>)
    requires
        legal_steps(history),
        history.len() > 0 ==> history[0] == Stage::Idle,
    ensures
        cycle_prefix(history),
    decreases history.len(),
{
    if history.len() >= 2 {
        assert(legal_edge(history[0], history[1]));
        if history[1] == Stage::Requested {
            if history.len() >= 3 {
                assert(legal_edge(history[1], history[2]));
                if history.len() >= 4 {
                    assert(legal_edge(history[2], history[3]));
                    let rest = history.skip(4);
                    if rest.len() > 0 {
                        assert(legal_edge(history[3], history[4]));
                        assert(rest[0] == history[4]);
                    }
                    assert forall|i: int| 0 <= i < rest.len() - 1 implies legal_edge(
                        #[trigger] rest[i],
                        rest[i + 1],
                    ) by {
                        assert(legal_edge(history[i + 4], history[i + 4 + 1]));
                    }
                    lemma_steps_form_cycles(rest);
                }
            }
        } else {
            if history.len() >= 3 {
                assert(legal_edge(history[1], history[2]));
                let rest = history.skip(3);
                if rest.len() > 0 {
                    assert(legal_edge(history[2], history[3]));
                    assert(rest[0] == history[3]);
                }
                assert forall|i: int| 0 <= i < rest.len() - 1 implies legal_edge(
                    #[trigger] rest[i],
                    rest[i + 1],
                ) by {
                    assert(legal_edge(history[i + 3], history[i + 3 + 1]));
                }
                lemma_steps_form_cycles(rest);
            }
        }
    }
}

/// The stages that a variable passes begin a sequence of cycles: `Idle`,
/// then `Requested` or not, then `Processing`, then `Committed`, over and
/// over.
pub proof fn lemma_trace_is_cycles(history: Seq<Stage>)
    requires
        legal_trace(history),
    ensures
        cycle_prefix(history),
{
    lemma_steps_form_cycles(history);
}

/// A run of two sequences of events, one after the other, is the run of the
/// second from where the first ends.
pub proof fn lemma_run_concat(var: VariableView, first: Seq<Event>, second: Seq<Event>)
    ensures
        run(var, first + second) == (match run(var, first) {
            Some(mid) => run(mid, second),
            None => None,
        }),
    decreases first.len(),
{
    if first.len() == 0 {
        assert(first + second =~= second);
    } else {
        assert((first + second)[0] == first[0]);
        assert((first + second).skip(1) =~= first.skip(1) + second);
        if enabled(var, first[0]) {
            lemma_run_concat(step(var, first[0]), first.skip(1), second);
        }
    }
}

/// A poll for entry is a run of the user's events: the waker is registered,
/// and where the poll asks for processing, the request follows.
pub proof fn lemma_acquire_poll_is_run(var: VariableView, request: bool, waker: u64)
    ensures
        acquire_step(var.stage, request) == AcquireStep::Request ==> run(
            var,
            seq![Event::Register(waker), Event::Request],
        ) == Some(acquire_poll(var, request, waker)),
        acquire_step(var.stage, request) != AcquireStep::Request ==> run(
            var,
            seq![Event::Register(waker)],
        ) == Some(acquire_poll(var, request, waker)),
{
    reveal_with_fuel(run, 3);
    let one = seq![Event::Register(waker)];
    let two = seq![Event::Register(waker), Event::Request];
    assert(one.skip(1) =~= Seq::<Event>::empty());
    assert(two.skip(1) =~= seq![Event::Request]);
    assert(two.skip(1).skip(1) =~= Seq::<Event>::empty());
}

/// Writing a scalar and committing success is a run of the user's events:
/// one store and the commit.
pub proof fn lemma_scalar_write_is_run(var: VariableView, bits: u64)
    requires
        var.inv(),
        var.stage == Stage::Processing,
    ensures
        run(var, seq![Event::Store(0, bits), Event::Commit(FerVarStatus::Success, Seq::empty())])
            == Some(committed(scalar_stored(var, bits), Ok(()))),
{
    reveal_with_fuel(run, 3);
    let two = seq![Event::Store(0, bits), Event::Commit(FerVarStatus::Success, Seq::empty())];
    assert(two.skip(1) =~= seq![Event::Commit(FerVarStatus::Success, Seq::empty())]);
    assert(two.skip(1).skip(1) =~= Seq::<Event>::empty());
}

/// The events by which the user clears an array and pushes the first
/// `count` of `items`: the length is set to zero, then each item is stored
/// and the length raised by one.
pub open spec fn fill_events(items: Seq<u64>, count: nat) -> Seq<Event>
    decreases count,
{
    if count == 0 {
        seq![Event::Resize(0)]
    } else {
        fill_events(items, (count - 1) as nat) + seq![
            Event::Store(count - 1, items[count - 1]),
            Event::Resize(count),
        ]
    }
}

/// The variable after the first `count` of `items` were pushed to the
/// cleared array.
pub open spec fn filled(before: VariableView, items: Seq<u64>, count: nat) -> VariableView {
    VariableView {
        len: count,
        cells: Seq::new(
            before.cells.len(),
            |i: int|
                if i < count {
                    items[i]
                } else {
                    before.cells[i]
                },
        ),
        ..before
    }
}

/// Pushing the first `count` items to the cleared array is a run of the
/// user's events.
pub proof fn lemma_fill_is_run(before: VariableView, items: Seq<u64>, count: nat)
    requires
        before.inv(),
        before.stage == Stage::Processing,
        count <= items.len(),
        count <= before.info.max_len,
    ensures
        run(before, fill_events(items, count)) == Some(filled(before, items, count)),
    decreases count,
{
    if count == 0 {
        reveal_with_fuel(run, 2);
        assert(fill_events(items, 0).skip(1) =~= Seq::<Event>::empty());
        assert(filled(before, items, 0).cells =~= before.cells);
    } else {
        let k = (count - 1) as nat;
        lemma_fill_is_run(before, items, k);
        let mid = filled(before, items, k);
        let tail = seq![Event::Store(k as int, items[k as int]), Event::Resize(count)];
        lemma_run_concat(before, fill_events(items, k), tail);
        reveal_with_fuel(run, 3);
        assert(tail.skip(1) =~= seq![Event::Resize(count)]);
        assert(tail.skip(1).skip(1) =~= Seq::<Event>::empty());
        assert(step(step(mid, tail[0]), tail[1]).cells =~= filled(before, items, count).cells);
    }
}

/// Writing to an array is a run of the user's events: the variable after
/// the write is the one after as many pushes as the array takes.
pub proof fn lemma_array_write_is_run(before: VariableView, items: Seq<u64>)
    requires
        before.inv(),
        before.stage == Stage::Processing,
    ensures
        run(before, fill_events(items, taken(items.len(), before.info.max_len))) == Some(
            array_stored(before, items),
        ),
{
    let n = taken(items.len(), before.info.max_len);
    lemma_fill_is_run(before, items, n);
    assert(filled(before, items, n).cells =~= array_stored(before, items).cells);
}

} // verus!
