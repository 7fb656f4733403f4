//! The handoff between host and user for one variable: a stage that moves
//! along five edges, a single-slot waker, and the handle through which both
//! sides reach the host's record.

pub mod read;
pub mod read_array;
pub mod write;

use crate::import::{FerVar, FerVarCommit, FerVarInfo, FerVarStatus, FerVarValue};
use vstd::prelude::*;
use vstd::string::StringExecFns;

verus! {

/// Message handed to the host when a value guard is given up without a
/// commit.
pub const UNHANDLED: &'static str = "Unhandled error";

/// Where a variable stands in its processing cycle.
#[derive(Clone, Copy, Debug, PartialEq, Eq, Structural)]
pub enum Stage {
    Idle,
    Requested,
    Processing,
    Committed,
}

/// The two parties of the handoff.
#[derive(Clone, Copy, Debug, PartialEq, Eq, Structural)]
pub enum Side {
    User,
    Host,
}

/// The five edges along which a stage may move.
pub open spec fn legal_edge(from: Stage, to: Stage) -> bool {
    match (from, to) {
        (Stage::Idle, Stage::Requested) => true,
        (Stage::Idle, Stage::Processing) => true,
        (Stage::Requested, Stage::Processing) => true,
        (Stage::Processing, Stage::Committed) => true,
        (Stage::Committed, Stage::Idle) => true,
        _ => false,
    }
}

/// The party that alone may take the edge that ends in `to`: the user moves
/// a variable to `Requested` and to `Committed`, the host to `Processing` and
/// back to `Idle`.
pub open spec fn edge_side(to: Stage) -> Side {
    match to {
        Stage::Requested | Stage::Committed => Side::User,
        Stage::Processing | Stage::Idle => Side::Host,
    }
}

/// The party that alone may change the value cell at a stage: the user while
/// the variable is being processed, the host at every other stage.
pub open spec fn value_owner(stage: Stage) -> Side {
    if stage == Stage::Processing {
        Side::User
    } else {
        Side::Host
    }
}

/// A history of stages that starts at `Idle` and moves along legal edges
/// only.
pub open spec fn legal_trace(history: Seq<Stage>) -> bool {
    &&& history.len() > 0
    &&& history[0] == Stage::Idle
    &&& forall|i: int| 0 <= i < history.len() - 1 ==> legal_edge(#[trigger] history[i], history[i + 1])
}

/// Executable form of [`legal_edge`].
pub fn is_legal_edge(from: Stage, to: Stage) -> (r: bool)
    ensures
        r == legal_edge(from, to),
{
    match (from, to) {
        (Stage::Idle, Stage::Requested) => true,
        (Stage::Idle, Stage::Processing) => true,
        (Stage::Requested, Stage::Processing) => true,
        (Stage::Processing, Stage::Committed) => true,
        (Stage::Committed, Stage::Idle) => true,
        _ => false,
    }
}

/// What host and user share of one variable: the stage and the waker slot.
/// A waker is named by the number that the executor gave the task.
pub struct SharedState {
    stage: Stage,
    waker: Option<u64>,
    history: Ghost<Seq<Stage>>,
}

impl SharedState {
    pub closed spec fn spec_stage(&self) -> Stage {
        self.stage
    }

    pub closed spec fn spec_waker(&self) -> Option<u64> {
        self.waker
    }

    /// Every stage that the variable has been at, the present one last.
    pub closed spec fn spec_history(&self) -> Seq<Stage> {
        self.history@
    }

    /// The history is a legal trace that ends at the present stage.
    pub open spec fn inv(&self) -> bool {
        legal_trace(self.spec_history()) && self.spec_history().last() == self.spec_stage()
    }

    /// The state of a variable that has not been processed yet.
    pub fn new() -> (s: SharedState)
        ensures
            s.spec_stage() == Stage::Idle,
            s.spec_waker().is_none(),
            s.spec_history() == seq![Stage::Idle],
            s.inv(),
    {
        let history = Ghost(Seq::<Stage>::empty().push(Stage::Idle));
        proof {
            assert(history@ =~= seq![Stage::Idle]);
        }
        SharedState { stage: Stage::Idle, waker: None, history }
    }

    /// Observes the stage.
    #[verifier::when_used_as_spec(spec_stage)]
    pub fn stage(&self) -> (s: Stage)
        ensures
            s == self.spec_stage(),
    {
        self.stage
    }

    /// Swaps the stage along a legal edge and hands back the stage left.
    pub fn transition(&mut self, expected: Stage, next: Stage) -> (prev: Stage)
        requires
            old(self).spec_stage() == expected,
            legal_edge(expected, next),
        ensures
            prev == expected,
            final(self).spec_stage() == next,
            final(self).spec_waker() == old(self).spec_waker(),
            final(self).spec_history() == old(self).spec_history().push(next),
            old(self).inv() ==> final(self).inv(),
    {
        let prev = self.stage;
        self.stage = next;
        let history = Ghost(self.history@.push(next));
        self.history = history;
        prev
    }

    /// Takes the edge to `next` if the stage is `expected` and the edge is
    /// legal, and says whether it did; otherwise nothing changes.
    pub fn try_transition(&mut self, expected: Stage, next: Stage) -> (done: bool)
        ensures
            done == (old(self).spec_stage() == expected && legal_edge(expected, next)),
            done ==> final(self).spec_stage() == next,
            done ==> final(self).spec_history() == old(self).spec_history().push(next),
            !done ==> final(self).spec_stage() == old(self).spec_stage(),
            !done ==> final(self).spec_history() == old(self).spec_history(),
            final(self).spec_waker() == old(self).spec_waker(),
            old(self).inv() ==> final(self).inv(),
    {
        if self.stage == expected && is_legal_edge(expected, next) {
            self.transition(expected, next);
            true
        } else {
            false
        }
    }

    /// Puts `waker` in the slot, in place of what was there.
    pub fn set_waker(&mut self, waker: u64)
        ensures
            final(self).spec_waker() == Some(waker),
            final(self).spec_stage() == old(self).spec_stage(),
            final(self).spec_history() == old(self).spec_history(),
    {
        self.waker = Some(waker);
    }

    /// Empties the slot and hands back the waker that is to be woken, if one
    /// was registered.
    pub fn wake(&mut self) -> (woken: Option<u64>)
        ensures
            woken == old(self).spec_waker(),
            final(self).spec_waker().is_none(),
            final(self).spec_stage() == old(self).spec_stage(),
            final(self).spec_history() == old(self).spec_history(),
    {
        let woken = self.waker;
        self.waker = None;
        woken
    }
}

/// All that can be observed of a variable.
pub struct VariableView {
    pub name: Seq<char>,
    pub info: FerVarInfo,
    pub stage: Stage,
    pub history: Seq<Stage>,
    pub waker: Option<u64>,
    pub len: nat,
    pub cells: Seq<u64>,
    pub locked: bool,
    pub requested: bool,
    pub commits: Seq<(FerVarStatus, Seq<char>)>,
}

impl VariableView {
    /// The storage has the room that the metadata declares, the length is
    /// within it, and the stages passed so far form a legal trace that ends
    /// at the present stage.
    pub open spec fn inv(self) -> bool {
        &&& self.cells.len() == self.info.spec_cells()
        &&& self.len <= self.info.max_len
        &&& legal_trace(self.history)
        &&& self.history.last() == self.stage
    }

    /// The elements in use: for a scalar none, for an array the first `len`.
    pub open spec fn elements(self) -> Seq<u64> {
        self.cells.take(self.len as int)
    }
}

/// What the host is handed for a commit status.
pub open spec fn commit_record(status: Result<(), &str>) -> (FerVarStatus, Seq<char>) {
    match status {
        Ok(_) => (FerVarStatus::Success, Seq::<char>::empty()),
        Err(message) => (FerVarStatus::Failure, message@),
    }
}

/// The variable after `waker` was put in the waker slot.
pub open spec fn registered(before: VariableView, waker: u64) -> VariableView {
    VariableView { waker: Some(waker), ..before }
}

/// The variable after the user has asked for processing.
pub open spec fn requested(before: VariableView) -> VariableView {
    VariableView {
        stage: Stage::Requested,
        history: before.history.push(Stage::Requested),
        requested: true,
        ..before
    }
}

/// The variable after the host has begun to process it: the waker slot is
/// empty and a pending request is served.
pub open spec fn begun(before: VariableView) -> VariableView {
    VariableView {
        stage: Stage::Processing,
        history: before.history.push(Stage::Processing),
        waker: None,
        requested: false,
        ..before
    }
}

/// The variable after a commit with `status`.
pub open spec fn committed(before: VariableView, status: Result<(), &str>) -> VariableView {
    VariableView {
        stage: Stage::Committed,
        history: before.history.push(Stage::Committed),
        commits: before.commits.push(commit_record(status)),
        ..before
    }
}

/// The variable after the host has ended the cycle: the waker slot is empty.
pub open spec fn ended(before: VariableView) -> VariableView {
    VariableView {
        stage: Stage::Idle,
        history: before.history.push(Stage::Idle),
        waker: None,
        ..before
    }
}

/// The variable after its mutex was taken.
pub open spec fn locked(before: VariableView) -> VariableView {
    VariableView { locked: true, ..before }
}

/// The variable after its mutex was released.
pub open spec fn unlocked(before: VariableView) -> VariableView {
    VariableView { locked: false, ..before }
}

/// The variable after one element of the value cell was written.
pub open spec fn stored(before: VariableView, index: int, bits: u64) -> VariableView {
    VariableView { cells: before.cells.update(index, bits), ..before }
}

/// The variable after the length of the value cell was set.
pub open spec fn resized(before: VariableView, len: nat) -> VariableView {
    VariableView { len, ..before }
}

/// The variable after the host has replaced the content of the value cell.
pub open spec fn host_stored(before: VariableView, len: nat, cells: Seq<u64>) -> VariableView {
    VariableView { len, cells, ..before }
}

/// Handle to a variable of the host together with the state shared with it.
pub struct Variable {
    raw: FerVar,
    state: SharedState,
}

impl View for Variable {
    type V = VariableView;

    closed spec fn view(&self) -> VariableView {
        VariableView {
            name: self.raw.name@,
            info: self.raw.info,
            stage: self.state.spec_stage(),
            history: self.state.spec_history(),
            waker: self.state.spec_waker(),
            len: self.raw.value.len as nat,
            cells: self.raw.value.data@,
            locked: self.raw.locked,
            requested: self.raw.requested,
            commits: self.raw.spec_commits(),
        }
    }
}

impl Variable {
    /// The variable is well formed and its mutex is free, as it is between
    /// any two operations.
    pub open spec fn wf(&self) -> bool {
        self@.inv() && !self@.locked
    }

    /// Takes up a variable that the host declares: the shared state starts
    /// at `Idle` with an empty waker slot.
    pub fn initialize(raw: FerVar) -> (var: Variable)
        requires
            raw.wf(),
        ensures
            var@ == (VariableView {
                name: raw.name@,
                info: raw.info,
                stage: Stage::Idle,
                history: seq![Stage::Idle],
                waker: None,
                len: raw.value.len as nat,
                cells: raw.value.data@,
                locked: raw.locked,
                requested: raw.requested,
                commits: raw.spec_commits(),
            }),
            var@.inv(),
    {
        Variable { raw, state: SharedState::new() }
    }

    pub fn name(&self) -> (name: &str)
        ensures
            name@ == self@.name,
    {
        self.raw.name.as_str()
    }

    /// Whether the variable goes by `name`.
    pub fn has_name(&self, name: &str) -> (r: bool)
        ensures
            r == (self@.name == name@),
    {
        let other = String::from_str(name);
        self.raw.name == other
    }

    pub fn info(&self) -> (info: FerVarInfo)
        ensures
            info == self@.info,
    {
        self.raw.info
    }

    /// Observes the stage.
    pub fn stage(&self) -> (stage: Stage)
        ensures
            stage == self@.stage,
    {
        self.state.stage()
    }

    /// The host's record, as the host sees it.
    pub fn raw(&self) -> (raw: &FerVar)
        ensures
            raw.name@ == self@.name,
            raw.info == self@.info,
            raw.value.len == self@.len,
            raw.value.data@ == self@.cells,
            raw.locked == self@.locked,
            raw.requested == self@.requested,
            raw.spec_commits() == self@.commits,
    {
        &self.raw
    }

    /// Registers `waker` as the one to wake on the host's next transition.
    pub fn set_waker(&mut self, waker: u64)
        ensures
            final(self)@ == registered(old(self)@, waker),
    {
        self.state.set_waker(waker);
    }

    /// The host's side of the variable, for the life of what is handed back.
    pub fn system(&mut self) -> (system: SystemVariable<'_>)
        ensures
            *system.base == *old(self),
            *final(self) == *final(system.base),
    {
        SystemVariable { base: self }
    }

    /// Takes the variable's mutex, as the host does around its calls.
    pub fn raw_lock(&mut self)
        requires
            !old(self)@.locked,
        ensures
            final(self)@ == locked(old(self)@),
    {
        self.raw.locked = true;
    }

    /// Releases the variable's mutex.
    pub fn raw_unlock(&mut self)
        requires
            old(self)@.locked,
        ensures
            final(self)@ == unlocked(old(self)@),
    {
        self.raw.locked = false;
    }

    /// Takes the variable's mutex for the life of the guard that is handed
    /// back.
    pub fn lock(&mut self) -> (guard: LockedVariable<'_>)
        requires
            !old(self)@.locked,
        ensures
            (*guard.base)@ == locked(old(self)@),
            *final(self) == *final(guard.base),
    {
        self.raw_lock();
        LockedVariable { base: self }
    }

    /// User side, under the mutex: asks the host to process the variable
    /// soon.
    fn request_proc(&mut self)
        requires
            old(self)@.locked,
            old(self)@.stage == Stage::Idle,
        ensures
            final(self)@ == requested(old(self)@),
            old(self)@.inv() ==> final(self)@.inv(),
    {
        self.state.transition(Stage::Idle, Stage::Requested);
        self.raw.requested = true;
    }

    /// User side, under the mutex: tells the host that processing is done,
    /// with success or with a message for the host's error channel.
    fn commit(&mut self, status: Result<(), &str>)
        requires
            old(self)@.locked,
            old(self)@.stage == Stage::Processing,
        ensures
            final(self)@ == committed(old(self)@, status),
            old(self)@.inv() ==> final(self)@.inv(),
    {
        self.state.transition(Stage::Processing, Stage::Committed);
        let record = match status {
            Ok(_) => FerVarCommit { status: FerVarStatus::Success, message: String::new() },
            Err(message) => FerVarCommit {
                status: FerVarStatus::Failure,
                message: String::from_str(message),
            },
        };
        let ghost before = self.raw.spec_commits();
        self.raw.commits.push(record);
        assert(self.raw.spec_commits() =~= before.push(commit_record(status)));
    }

    /// One element of the value cell.
    pub fn load(&self, index: usize) -> (bits: u64)
        requires
            index < self@.cells.len(),
        ensures
            bits == self@.cells[index as int],
    {
        self.raw.value.data[index]
    }

    /// The length that the value cell holds.
    pub fn len(&self) -> (len: usize)
        ensures
            len == self@.len,
    {
        self.raw.value.len
    }

    /// User side: writes one element of the value cell while the variable is
    /// being processed.
    pub fn store(&mut self, index: usize, bits: u64)
        requires
            old(self)@.stage == Stage::Processing,
            index < old(self)@.cells.len(),
        ensures
            final(self)@ == stored(old(self)@, index as int, bits),
    {
        self.raw.value.data.set(index, bits);
    }

    /// User side: sets the length of the value cell while the variable is
    /// being processed.
    pub fn set_len(&mut self, len: usize)
        requires
            old(self)@.stage == Stage::Processing,
            len <= old(self)@.info.max_len,
        ensures
            final(self)@ == resized(old(self)@, len as nat),
    {
        self.raw.value.len = len;
    }
}

/// The user's side of a variable while the variable's mutex is held. The hold
/// ends with [`LockedVariable::unlock`].
pub struct LockedVariable<'a> {
    pub base: &'a mut Variable,
}

impl<'a> LockedVariable<'a> {
    /// The user's side of a variable whose mutex the caller holds already,
    /// as a waker does that the host calls from within its own hold. The
    /// mutex is neither taken now nor released at the end.
    pub fn without_lock(base: &'a mut Variable) -> (guard: LockedVariable<'a>)
        requires
            old(base)@.locked,
        ensures
            *guard.base == *old(base),
            *final(base) == *final(guard.base),
    {
        LockedVariable { base }
    }

    /// Asks the host to process the variable soon.
    pub fn request_proc(&mut self)
        requires
            (*old(self).base)@.locked,
            (*old(self).base)@.stage == Stage::Idle,
        ensures
            (*final(self).base)@ == requested((*old(self).base)@),
            *final(final(self).base) == *final(old(self).base),
    {
        self.base.request_proc();
    }

    /// Tells the host that processing is done, with success or with a
    /// message for the host's error channel.
    pub fn commit(&mut self, status: Result<(), &str>)
        requires
            (*old(self).base)@.locked,
            (*old(self).base)@.stage == Stage::Processing,
        ensures
            (*final(self).base)@ == committed((*old(self).base)@, status),
            *final(final(self).base) == *final(old(self).base),
    {
        self.base.commit(status);
    }

    /// Releases the mutex and ends the hold.
    pub fn unlock(self)
        requires
            (*old(self.base))@.locked,
        ensures
            (*final(self.base))@ == unlocked((*old(self.base))@),
    {
        self.base.raw_unlock();
    }
}

/// The host's side of a variable: what the host does to it from its own
/// thread, with the variable's mutex held.
pub struct SystemVariable<'a> {
    pub base: &'a mut Variable,
}

impl<'a> SystemVariable<'a> {
    /// Processing begins. The waker in the slot is taken out and handed back
    /// to be woken, and a pending request counts as served.
    pub fn proc_begin(&mut self) -> (woken: Option<u64>)
        requires
            (*old(self).base)@.stage == Stage::Idle || (*old(self).base)@.stage
                == Stage::Requested,
        ensures
            woken == (*old(self).base)@.waker,
            (*final(self).base)@ == begun((*old(self).base)@),
            (*old(self).base)@.inv() ==> (*final(self).base)@.inv(),
            *final(final(self).base) == *final(old(self).base),
    {
        let from = self.base.state.stage();
        self.base.state.transition(from, Stage::Processing);
        self.base.raw.requested = false;
        self.base.state.wake()
    }

    /// The commit was observed and the cycle ends. The waker in the slot is
    /// taken out and handed back to be woken.
    pub fn proc_end(&mut self) -> (woken: Option<u64>)
        requires
            (*old(self).base)@.stage == Stage::Committed,
        ensures
            woken == (*old(self).base)@.waker,
            (*final(self).base)@ == ended((*old(self).base)@),
            (*old(self).base)@.inv() ==> (*final(self).base)@.inv(),
            *final(final(self).base) == *final(old(self).base),
    {
        self.base.state.transition(Stage::Committed, Stage::Idle);
        self.base.state.wake()
    }

    /// Replaces the content of the value cell. The host does so only while
    /// the variable is not being processed.
    pub fn store(&mut self, value: FerVarValue)
        requires
            (*old(self).base)@.stage != Stage::Processing,
            value.fits((*old(self).base)@.info),
        ensures
            (*final(self).base)@ == host_stored(
                (*old(self).base)@,
                value.len as nat,
                value.data@,
            ),
            *final(final(self).base) == *final(old(self).base),
    {
        self.base.raw.value = value;
    }
}

} // verus!
