//! An adapter that mirrors a value held by the user into a scalar variable,
//! cycle by cycle, without the user waiting.

use crate::import::{FerVarStatus, FerVarValue, PERM_ALL};
use crate::protocol::{run, Event};
use crate::typed::scalar::scalar_stored;
use crate::typed::{view_accepts, Type, TypedVariable};
use crate::variable::{
    begun, commit_record, committed, ended, host_stored, registered, requested, LockedVariable,
    Stage, Variable, VariableView,
};
use async_atomic::AsyncAtomic;
use std::marker::PhantomData;
use vstd::prelude::*;

verus! {

/// The cell that holds the mirrored value by its bit pattern: an
/// `AsyncAtomic` that the adapter owns and shares with nobody.
#[verifier::external_body]
pub struct Mirror {
    cell: AsyncAtomic<u64>,
}

/// The bits that a mirror cell holds.
pub uninterp spec fn mirror_bits(mirror: Mirror) -> u64;

/// `AsyncAtomic::new`: the new cell holds the value that it was made with.
#[verifier::external_body]
fn mirror_new(bits: u64) -> (mirror: Mirror)
    ensures
        mirror_bits(mirror) == bits,
{
    Mirror { cell: AsyncAtomic::new(bits) }
}

/// `AsyncAtomic::load`: hands back the value that the cell holds.
#[verifier::external_body]
fn mirror_load(mirror: &Mirror) -> (bits: u64)
    ensures
        bits == mirror_bits(*mirror),
{
    mirror.cell.load()
}

/// `AsyncAtomic::store`: the cell holds the value stored.
#[verifier::external_body]
fn mirror_store(mirror: &mut Mirror, bits: u64)
    ensures
        mirror_bits(*final(mirror)) == bits,
{
    mirror.cell.store(bits)
}

/// `AsyncAtomic::swap`: the cell holds the value stored, and the value that
/// it held comes back.
#[verifier::external_body]
fn mirror_swap(mirror: &mut Mirror, bits: u64) -> (prev: u64)
    ensures
        prev == mirror_bits(*old(mirror)),
        mirror_bits(*final(mirror)) == bits,
{
    mirror.cell.swap(bits)
}

/// `AsyncAtomic::compare_exchange`: if the cell holds `current` it is set
/// to `new` and the value held before comes back as `Ok`; else the cell is
/// left alone and the value held comes back as `Err`.
#[verifier::external_body]
fn mirror_compare_exchange(mirror: &mut Mirror, current: u64, new: u64) -> (res: Result<
    u64,
    u64,
>)
    ensures
        res is Ok <==> mirror_bits(*old(mirror)) == current,
        res matches Ok(prev) ==> prev == current && mirror_bits(*final(mirror)) == new,
        res matches Err(held) ==> held == mirror_bits(*old(mirror)) && mirror_bits(*final(mirror))
            == held,
{
    mirror.cell.compare_exchange(current, new)
}

/// The waker under which the adapter is registered with its variable.
pub const ADAPTER_WAKER: u64 = 0xFFFF_FFFF_FFFF_FFFF;

/// What the adapter does in one pass once it has registered itself.
#[derive(Clone, Copy, Debug, PartialEq, Eq, Structural)]
pub enum AdapterStep {
    /// Nothing.
    Rest,
    /// Ask the host for processing.
    Request,
    /// Write the mirror to the host's storage and commit success.
    Publish,
    /// Copy the host's storage to the mirror and commit success.
    Fetch,
}

/// The step that the adapter takes at a stage, given whether a change of
/// the user's is pending.
pub open spec fn adapter_step(stage: Stage, update: bool) -> AdapterStep {
    match stage {
        Stage::Idle => if update {
            AdapterStep::Request
        } else {
            AdapterStep::Rest
        },
        Stage::Processing => if update {
            AdapterStep::Publish
        } else {
            AdapterStep::Fetch
        },
        _ => AdapterStep::Rest,
    }
}

/// Executable form of [`adapter_step`].
pub fn decide_adapter(stage: Stage, update: bool) -> (step: AdapterStep)
    ensures
        step == adapter_step(stage, update),
{
    match stage {
        Stage::Idle => if update {
            AdapterStep::Request
        } else {
            AdapterStep::Rest
        },
        Stage::Processing => if update {
            AdapterStep::Publish
        } else {
            AdapterStep::Fetch
        },
        _ => AdapterStep::Rest,
    }
}

/// All that can be observed of an adapter: its variable, the mirrored value,
/// and whether a change of the user's waits for the host's next cycle.
pub struct AdapterView<T> {
    pub variable: VariableView,
    pub value: T,
    pub pending: bool,
}

/// One pass of the adapter over its variable, given the mirrored value and
/// whether the user has changed it since the last cycle. The adapter
/// registers itself as the waker. At `Idle` a pending change makes it ask
/// for processing. At `Processing` a pending change is written to the
/// host's storage, and without one the host's value is copied to the
/// mirror; either way success is committed and no change is pending any
/// more. At `Requested` and `Committed` nothing else happens.
pub open spec fn notified<T: Type>(var: VariableView, value: T, pending: bool) -> AdapterView<T> {
    let known = registered(var, ADAPTER_WAKER);
    match adapter_step(var.stage, pending) {
        AdapterStep::Rest => AdapterView { variable: known, value, pending },
        AdapterStep::Request => AdapterView { variable: requested(known), value, pending },
        AdapterStep::Publish => AdapterView {
            variable: committed(scalar_stored(known, value.spec_to_bits()), Ok(())),
            value,
            pending: false,
        },
        AdapterStep::Fetch => AdapterView {
            variable: committed(known, Ok(())),
            value: T::spec_from_bits(var.cells[0]),
            pending: false,
        },
    }
}

/// A scalar variable that follows a value of the user's.
pub struct AtomicVariable<T: Type> {
    variable: Variable,
    value: Mirror,
    update: bool,
    _phantom: PhantomData<T>,
}

impl<T: Type> View for AtomicVariable<T> {
    type V = AdapterView<T>;

    closed spec fn view(&self) -> AdapterView<T> {
        AdapterView {
            variable: self.variable@,
            value: T::spec_from_bits(mirror_bits(self.value)),
            pending: self.update,
        }
    }
}

impl<T: Type> AtomicVariable<T> {
    /// The mirror cell holds the bit pattern of the mirrored value, with
    /// nothing above the type's width.
    pub closed spec fn canonical(&self) -> bool {
        mirror_bits(self.value) == T::spec_from_bits(mirror_bits(self.value)).spec_to_bits()
    }

    /// Between any two operations the variable is a well-formed scalar of
    /// type `T` with all permissions, its mutex is free, the adapter is the
    /// registered waker, the variable is not left in processing, and a
    /// pending change has been announced to the host.
    pub open spec fn wf(&self) -> bool {
        &&& self@.variable.inv()
        &&& self.canonical()
        &&& !self@.variable.locked
        &&& view_accepts::<T>(self@.variable.info, PERM_ALL)
        &&& self@.variable.waker == Some(ADAPTER_WAKER)
        &&& self@.variable.stage != Stage::Processing
        &&& self@.pending ==> self@.variable.stage != Stage::Idle
    }

    /// One pass over the variable, under the variable's mutex.
    fn notify(&mut self)
        requires
            old(self)@.variable.inv(),
            old(self)@.variable.locked,
            old(self).canonical(),
        ensures
            final(self)@ == notified(
                old(self)@.variable,
                old(self)@.value,
                old(self)@.pending,
            ),
            final(self)@.variable.inv(),
            final(self).canonical(),
    {
        let mut locked = LockedVariable::without_lock(&mut self.variable);
        locked.base.set_waker(ADAPTER_WAKER);
        match decide_adapter(locked.base.stage(), self.update) {
            AdapterStep::Rest => {},
            AdapterStep::Request => {
                locked.request_proc();
            },
            AdapterStep::Publish => {
                self.update = false;
                locked.base.store(0, mirror_load(&self.value));
                locked.commit(Ok(()));
            },
            AdapterStep::Fetch => {
                let value = T::from_bits(locked.base.load(0));
                proof {
                    T::lemma_round_trip(value);
                }
                mirror_store(&mut self.value, value.to_bits());
                locked.commit(Ok(()));
            },
        }
    }

    /// One pass over the variable for which the mutex is taken and released.
    fn pass(&mut self)
        requires
            old(self)@.variable.inv(),
            !old(self)@.variable.locked,
            old(self).canonical(),
        ensures
            final(self)@ == notified(
                old(self)@.variable,
                old(self)@.value,
                old(self)@.pending,
            ),
            final(self)@.variable.inv(),
            final(self).canonical(),
    {
        self.variable.raw_lock();
        self.notify();
        self.variable.raw_unlock();
    }

    /// Makes an adapter of a scalar variable. The mirror starts at the value
    /// whose bits are all zero, and the adapter makes its first pass.
    pub fn new(variable: TypedVariable<T, PERM_ALL>) -> (this: Self)
        requires
            variable.wf(),
        ensures
            this@ == notified(variable@, T::spec_from_bits(0), false),
            this.wf(),
    {
        let zero = T::from_bits(0);
        proof {
            T::lemma_round_trip(zero);
        }
        let mut this = AtomicVariable {
            variable: variable.into_base(),
            value: mirror_new(zero.to_bits()),
            update: false,
            _phantom: PhantomData,
        };
        this.pass();
        this
    }

    /// The mirrored value; the host is not touched.
    pub fn load(&self) -> (value: T)
        ensures
            value == self@.value,
    {
        T::from_bits(mirror_load(&self.value))
    }

    /// Whether a change of the user's waits for the host's next cycle.
    pub fn is_pending(&self) -> (update: bool)
        ensures
            update == self@.pending,
    {
        self.update
    }

    /// The variable under the adapter.
    pub fn variable(&self) -> (variable: &Variable)
        ensures
            variable@ == self@.variable,
    {
        &self.variable
    }

    /// Sets the mirror to `value`, marks the change as pending, and makes
    /// one pass.
    pub fn store(&mut self, value: T)
        requires
            old(self).wf(),
        ensures
            final(self)@ == notified(old(self)@.variable, value, true),
            final(self).wf(),
    {
        proof {
            T::lemma_round_trip(value);
        }
        mirror_store(&mut self.value, value.to_bits());
        self.update = true;
        self.pass();
    }

    /// As [`AtomicVariable::store`]; hands back the value that the mirror
    /// held.
    pub fn swap(&mut self, value: T) -> (prev: T)
        requires
            old(self).wf(),
        ensures
            prev == old(self)@.value,
            final(self)@ == notified(old(self)@.variable, value, true),
            final(self).wf(),
    {
        proof {
            T::lemma_round_trip(value);
        }
        let prev = T::from_bits(mirror_swap(&mut self.value, value.to_bits()));
        self.update = true;
        self.pass();
        prev
    }

    /// Sets the mirror to `new` if it holds the bits of `current`, as
    /// [`AtomicVariable::store`] does, and hands back the value held before
    /// as `Ok`; else changes nothing and hands back the value held as `Err`.
    pub fn compare_exchange(&mut self, current: T, new: T) -> (res: Result<T, T>)
        requires
            old(self).wf(),
        ensures
            res is Ok <==> old(self)@.value.spec_to_bits() == current.spec_to_bits(),
            res matches Ok(prev) ==> prev == old(self)@.value && final(self)@
                == notified(old(self)@.variable, new, true),
            res matches Err(held) ==> held == old(self)@.value && final(self)@ == old(
                self,
            )@,
            final(self).wf(),
    {
        proof {
            T::lemma_round_trip(new);
        }
        match mirror_compare_exchange(&mut self.value, current.to_bits(), new.to_bits()) {
            Ok(prev) => {
                self.update = true;
                self.pass();
                Ok(T::from_bits(prev))
            },
            Err(held) => Err(T::from_bits(held)),
        }
    }

    /// Asks `f` for a new value, given the one that the mirror holds. If `f`
    /// gives one, the mirror is set to it as [`AtomicVariable::store`] does,
    /// and the value held before comes back as `Ok`; else nothing changes
    /// and the value held comes back as `Err`.
    pub fn fetch_update<F: Fn(T) -> Option<T>>(&mut self, f: F) -> (res: Result<T, T>)
        requires
            old(self).wf(),
            f.requires((old(self)@.value,)),
        ensures
            res matches Ok(prev) ==> prev == old(self)@.value && exists|new: T|
                f.ensures((prev,), Some(new)) && final(self)@ == notified(
                    old(self)@.variable,
                    new,
                    true,
                ),
            res matches Err(held) ==> held == old(self)@.value && f.ensures((held,), None)
                && final(self)@ == old(self)@,
            final(self).wf(),
    {
        let held = T::from_bits(mirror_load(&self.value));
        match f(held) {
            Some(new) => {
                self.store(new);
                Ok(held)
            },
            None => Err(held),
        }
    }

    /// Host side: processing begins. The adapter is woken under the host's
    /// hold of the mutex and makes its pass at once, so the variable is
    /// committed when the call returns.
    pub fn proc_begin(&mut self)
        requires
            old(self).wf(),
            old(self)@.variable.stage == Stage::Idle || old(self)@.variable.stage
                == Stage::Requested,
        ensures
            final(self)@ == notified(
                begun(old(self)@.variable),
                old(self)@.value,
                old(self)@.pending,
            ),
            final(self)@.variable.stage == Stage::Committed,
            final(self).wf(),
    {
        self.variable.raw_lock();
        let woken = self.variable.system().proc_begin();
        if woken == Some(ADAPTER_WAKER) {
            self.notify();
        }
        self.variable.raw_unlock();
    }

    /// Host side: the cycle ends. The adapter is woken under the host's hold
    /// of the mutex and makes its pass at once, so a change that came in
    /// the meantime is announced when the call returns.
    pub fn proc_end(&mut self)
        requires
            old(self).wf(),
            old(self)@.variable.stage == Stage::Committed,
        ensures
            final(self)@ == notified(
                ended(old(self)@.variable),
                old(self)@.value,
                old(self)@.pending,
            ),
            final(self).wf(),
    {
        self.variable.raw_lock();
        let woken = self.variable.system().proc_end();
        if woken == Some(ADAPTER_WAKER) {
            self.notify();
        }
        self.variable.raw_unlock();
    }

    /// Host side: replaces the content of the value cell between cycles.
    pub fn host_store(&mut self, value: FerVarValue)
        requires
            old(self).wf(),
            value.fits(old(self)@.variable.info),
        ensures
            final(self)@ == (AdapterView {
                variable: host_stored(old(self)@.variable, value.len as nat, value.data@),
                ..old(self)@
            }),
            final(self).wf(),
    {
        self.variable.system().store(value);
    }
}

/// The state of an adapter after the user has stored `value`.
pub open spec fn after_store<T: Type>(var: VariableView, value: T) -> AdapterView<T> {
    notified(var, value, true)
}

/// The state of an adapter after the host has begun a cycle.
pub open spec fn after_begin<T: Type>(state: AdapterView<T>) -> AdapterView<T> {
    notified(begun(state.variable), state.value, state.pending)
}

/// The state of an adapter after the host has ended a cycle.
pub open spec fn after_end<T: Type>(state: AdapterView<T>) -> AdapterView<T> {
    notified(ended(state.variable), state.value, state.pending)
}

/// A value stored while the variable is idle or requested is in the host's
/// storage, committed with success, once the host has begun its cycle.
pub proof fn lemma_store_reaches_host<T: Type>(var: VariableView, value: T)
    requires
        var.inv(),
        var.stage == Stage::Idle || var.stage == Stage::Requested,
    ensures
        after_begin(after_store(var, value)).variable.cells[0] == value.spec_to_bits(),
        after_begin(after_store(var, value)).variable.stage == Stage::Committed,
        after_begin(after_store(var, value)).value == value,
        !after_begin(after_store(var, value)).pending,
{
}

/// A value stored while the variable is committed is in the host's storage
/// once the host has ended that cycle and begun the next.
pub proof fn lemma_late_store_reaches_host<T: Type>(var: VariableView, value: T)
    requires
        var.inv(),
        var.stage == Stage::Committed,
    ensures
        after_end(after_store(var, value)).variable.stage == Stage::Requested,
        after_begin(after_end(after_store(var, value))).variable.cells[0] == value.spec_to_bits(),
        after_begin(after_end(after_store(var, value))).variable.stage == Stage::Committed,
        !after_begin(after_end(after_store(var, value))).pending,
{
}

/// Without a pending change, a cycle that the host begins of its own
/// accord brings the host's value to the mirror.
pub proof fn lemma_host_value_reaches_mirror<T: Type>(
    var: VariableView,
    held: T,
    len: nat,
    cells: Seq<u64>,
)
    requires
        var.inv(),
        var.stage == Stage::Idle || var.stage == Stage::Requested,
        cells.len() == var.info.spec_cells(),
    ensures
        after_begin(
            AdapterView { variable: host_stored(var, len, cells), value: held, pending: false },
        ).value == T::spec_from_bits(cells[0]),
        after_begin(
            AdapterView { variable: host_stored(var, len, cells), value: held, pending: false },
        ).variable.cells == cells,
        after_begin(
            AdapterView { variable: host_stored(var, len, cells), value: held, pending: false },
        ).variable.stage == Stage::Committed,
{
}

/// Two stores before the host begins its cycle come to one request and one
/// commit, and the host sees the second value only.
pub proof fn lemma_stores_coalesce<T: Type>(var: VariableView, first: T, second: T)
    requires
        var.inv(),
        var.stage == Stage::Idle,
    ensures
        after_store(var, first).variable.stage == Stage::Requested,
        after_store(after_store(var, first).variable, second).variable.history == after_store(
            var,
            first,
        ).variable.history,
        after_begin(after_store(after_store(var, first).variable, second)).variable.cells[0]
            == second.spec_to_bits(),
        after_begin(after_store(after_store(var, first).variable, second)).variable.commits
            == var.commits.push(commit_record(Ok(()))),
{
}

/// The events of one pass of the adapter that takes `step` with the
/// mirror at `bits`.
pub open spec fn pass_events(step: AdapterStep, bits: u64) -> Seq<Event> {
    match step {
        AdapterStep::Rest => seq![Event::Register(ADAPTER_WAKER)],
        AdapterStep::Request => seq![Event::Register(ADAPTER_WAKER), Event::Request],
        AdapterStep::Publish => seq![
            Event::Register(ADAPTER_WAKER),
            Event::Store(0, bits),
            Event::Commit(FerVarStatus::Success, Seq::empty()),
        ],
        AdapterStep::Fetch => seq![
            Event::Register(ADAPTER_WAKER),
            Event::Commit(FerVarStatus::Success, Seq::empty()),
        ],
    }
}

/// One pass of the adapter is a run of the user's events on its variable.
pub proof fn lemma_pass_is_run<T: Type>(var: VariableView, value: T, pending: bool)
    requires
        var.inv(),
    ensures
        run(var, pass_events(adapter_step(var.stage, pending), value.spec_to_bits())) == Some(
            notified(var, value, pending).variable,
        ),
{
    reveal_with_fuel(run, 4);
    let events = pass_events(adapter_step(var.stage, pending), value.spec_to_bits());
    assert(events.skip(1).len() == events.len() - 1);
    if events.len() >= 2 {
        assert(events.skip(1)[0] == events[1]);
        assert(events.skip(1).skip(1).len() == events.len() - 2);
        if events.len() >= 3 {
            assert(events.skip(1).skip(1)[0] == events[2]);
            assert(events.skip(1).skip(1).skip(1).len() == 0);
        }
    }
}

} // verus!
