//! Typed views of a variable and the three steps of a processing cycle as
//! the user sees it: acquire, hold the value, commit.

pub mod array;
pub mod scalar;

use crate::import::{FerVarInfo, FerVarPerm, FerVarType, FerVarValue};
use crate::variable::{
    begun, committed, ended, host_stored, registered, requested, resized, stored, Stage, Variable,
    VariableView, UNHANDLED,
};
use std::marker::PhantomData;
use vstd::prelude::*;

verus! {

/// An element type of the host. A value travels to and from the value cell
/// as its bit pattern, zero-extended to 64 bits.
pub trait Type: Copy + Sized {
    /// The element type under which the host knows this type.
    spec fn spec_type() -> FerVarType;

    /// The bit pattern of a value.
    spec fn spec_to_bits(self) -> u64;

    /// The value that a bit pattern stands for; bits above the type's width
    /// are ignored.
    spec fn spec_from_bits(bits: u64) -> Self;

    fn type_() -> (t: FerVarType)
        ensures
            t == Self::spec_type(),
    ;

    fn to_bits(self) -> (bits: u64)
        ensures
            bits == self.spec_to_bits(),
    ;

    fn from_bits(bits: u64) -> (value: Self)
        ensures
            value == Self::spec_from_bits(bits),
    ;

    /// A value is found again from its bit pattern.
    proof fn lemma_round_trip(value: Self)
        ensures
            Self::spec_from_bits(value.spec_to_bits()) == value,
    ;
}

/// What a typed view shows of a variable: one element of a type, or an array
/// of them.
pub trait Value {
    /// The element type of the view.
    spec fn spec_elem() -> FerVarType;

    /// Whether the view is an array.
    spec fn spec_is_array() -> bool;

    fn elem() -> (t: FerVarType)
        ensures
            t == Self::spec_elem(),
    ;

    fn is_array() -> (a: bool)
        ensures
            a == Self::spec_is_array(),
    ;
}

impl<T: Type> Value for T {
    open spec fn spec_elem() -> FerVarType {
        T::spec_type()
    }

    open spec fn spec_is_array() -> bool {
        false
    }

    fn elem() -> (t: FerVarType) {
        T::type_()
    }

    fn is_array() -> (a: bool) {
        false
    }
}

impl<T: Type> Value for [T] {
    open spec fn spec_elem() -> FerVarType {
        T::spec_type()
    }

    open spec fn spec_is_array() -> bool {
        true
    }

    fn elem() -> (t: FerVarType) {
        T::type_()
    }

    fn is_array() -> (a: bool) {
        true
    }
}

/// Whether a variable declared with `info` can be seen as a `V` by a user
/// that asks for the permissions `perm`: the element type is that of `V`, the
/// variable is an array exactly if `V` is, and `perm` encodes a set of
/// permissions that the variable grants.
pub open spec fn view_accepts<V: Value + ?Sized>(info: FerVarInfo, perm: u32) -> bool {
    &&& info.type_ == V::spec_elem()
    &&& (info.max_len > 0) == V::spec_is_array()
    &&& perm < 8
    &&& info.perm.spec_contains(FerVarPerm::spec_from_bits(perm).unwrap())
}

/// Executable form of [`view_accepts`].
pub fn check_view<V: Value + ?Sized>(info: FerVarInfo, perm: u32) -> (r: bool)
    ensures
        r == view_accepts::<V>(info, perm),
{
    if info.type_ != V::elem() {
        return false;
    }
    if (info.max_len > 0) != V::is_array() {
        return false;
    }
    match FerVarPerm::from_bits(perm) {
        Some(p) => info.perm.contains(p),
        None => false,
    }
}

/// A variable seen as a `V` with the permissions `PERM`.
pub struct TypedVariable<V: Value + ?Sized, const PERM: u32> {
    base: Variable,
    _phantom: PhantomData<V>,
}

impl<V: Value + ?Sized, const PERM: u32> View for TypedVariable<V, PERM> {
    type V = VariableView;

    closed spec fn view(&self) -> VariableView {
        self.base@
    }
}

/// Whether the permission bits `perm` encode a set that holds read.
pub open spec fn may_read(perm: u32) -> bool {
    FerVarPerm::spec_from_bits(perm) matches Some(p) && p.read
}

/// Whether the permission bits `perm` encode a set that holds write.
pub open spec fn may_write(perm: u32) -> bool {
    FerVarPerm::spec_from_bits(perm) matches Some(p) && p.write
}

/// Whether the permission bits `perm` encode a set that holds request.
pub open spec fn may_request(perm: u32) -> bool {
    FerVarPerm::spec_from_bits(perm) matches Some(p) && p.request
}

impl<V: Value + ?Sized, const PERM: u32> TypedVariable<V, PERM> {
    /// The variable is well formed, its mutex is free, and it is of the type,
    /// shape and permissions of this view.
    pub open spec fn wf(&self) -> bool {
        &&& self@.inv()
        &&& !self@.locked
        &&& view_accepts::<V>(self@.info, PERM)
    }

    /// The variable under this view.
    pub closed spec fn spec_base(&self) -> Variable {
        self.base
    }

    /// The view of `base` as a `V` with the permissions `PERM`.
    pub closed spec fn spec_new(base: Variable) -> Self {
        TypedVariable { base, _phantom: PhantomData }
    }

    /// A view shows the variable that it was made of.
    pub proof fn lemma_spec_new(base: Variable)
        ensures
            Self::spec_new(base)@ == base@,
            Self::spec_new(base).spec_base() == base,
    {
    }

    /// Wraps a variable whose metadata this view accepts.
    pub(crate) fn new_unchecked(base: Variable) -> (typed: Self)
        requires
            view_accepts::<V>(base@.info, PERM),
        ensures
            typed == Self::spec_new(base),
            typed@ == base@,
            typed.spec_base() == base,
    {
        TypedVariable { base, _phantom: PhantomData }
    }

    /// The variable under this view.
    pub fn base(&self) -> (base: &Variable)
        ensures
            base@ == self@,
            *base == self.spec_base(),
    {
        &self.base
    }

    /// Gives the view up for the variable under it.
    pub fn into_base(self) -> (base: Variable)
        ensures
            base@ == self@,
            base == self.spec_base(),
    {
        self.base
    }

    pub fn name(&self) -> (name: &str)
        ensures
            name@ == self@.name,
    {
        self.base.name()
    }

    pub fn info(&self) -> (info: FerVarInfo)
        ensures
            info == self@.info,
    {
        self.base.info()
    }

    /// Observes the stage.
    pub fn stage(&self) -> (stage: Stage)
        ensures
            stage == self@.stage,
    {
        self.base.stage()
    }

    /// Host side: processing begins; see [`SystemVariable::proc_begin`].
    pub fn proc_begin(&mut self) -> (woken: Option<u64>)
        requires
            old(self)@.stage == Stage::Idle || old(self)@.stage == Stage::Requested,
        ensures
            woken == old(self)@.waker,
            final(self)@ == begun(old(self)@),
            old(self).wf() ==> final(self).wf(),
    {
        self.base.system().proc_begin()
    }

    /// Host side: the cycle ends; see [`SystemVariable::proc_end`].
    pub fn proc_end(&mut self) -> (woken: Option<u64>)
        requires
            old(self)@.stage == Stage::Committed,
        ensures
            woken == old(self)@.waker,
            final(self)@ == ended(old(self)@),
            old(self).wf() ==> final(self).wf(),
    {
        self.base.system().proc_end()
    }

    /// Host side: replaces the content of the value cell; see
    /// [`SystemVariable::store`].
    pub fn host_store(&mut self, value: FerVarValue)
        requires
            old(self)@.stage != Stage::Processing,
            value.fits(old(self)@.info),
        ensures
            final(self)@ == host_stored(old(self)@, value.len as nat, value.data@),
            old(self).wf() ==> final(self).wf(),
    {
        self.base.system().store(value)
    }

    /// User side: writes one element of the value cell while the variable is
    /// being processed.
    pub(crate) fn store(&mut self, index: usize, bits: u64)
        requires
            old(self)@.stage == Stage::Processing,
            index < old(self)@.cells.len(),
        ensures
            final(self)@ == stored(old(self)@, index as int, bits),
            old(self).wf() ==> final(self).wf(),
    {
        self.base.store(index, bits)
    }

    /// User side: sets the length of the value cell while the variable is
    /// being processed.
    pub(crate) fn set_len(&mut self, len: usize)
        requires
            old(self)@.stage == Stage::Processing,
            len <= old(self)@.info.max_len,
        ensures
            final(self)@ == resized(old(self)@, len as nat),
            old(self).wf() ==> final(self).wf(),
    {
        self.base.set_len(len)
    }

    /// The value guard, if the variable is being processed right now;
    /// nothing is registered and nothing changes.
    pub fn try_acquire(&mut self) -> (guard: Option<ValueGuard<'_, V, PERM>>)
        ensures
            guard is Some <==> old(self)@.stage == Stage::Processing,
            guard matches Some(g) ==> *g.owner == *old(self) && *final(self) == *final(g.owner),
            guard is None ==> *final(self) == *old(self),
    {
        match self.base.stage() {
            Stage::Processing => Some(ValueGuard { owner: self }),
            _ => None,
        }
    }

    /// A future that waits for the host to begin processing, without asking
    /// for it.
    pub fn acquire(&mut self) -> (acquire: Acquire<V, PERM>)
        ensures
            !acquire.is_request(),
            *final(self) == *old(self),
    {
        Acquire { request: false, _phantom: PhantomData }
    }

    /// As [`TypedVariable::acquire`].
    pub fn wait(&mut self) -> (acquire: Acquire<V, PERM>)
        ensures
            !acquire.is_request(),
            *final(self) == *old(self),
    {
        self.acquire()
    }

    /// A future that asks the host to process the variable and waits for it
    /// to begin.
    pub fn request(&mut self) -> (acquire: Acquire<V, PERM>)
        requires
            may_request(PERM),
        ensures
            acquire.is_request(),
            *final(self) == *old(self),
    {
        Acquire { request: true, _phantom: PhantomData }
    }
}

/// Outcome of polling a future.
#[derive(Debug)]
pub enum Poll<T> {
    Ready(T),
    Pending,
}

impl<T> Poll<T> {
    pub fn is_ready(&self) -> (r: bool)
        ensures
            r == (self is Ready),
    {
        match self {
            Poll::Ready(_) => true,
            Poll::Pending => false,
        }
    }

    pub fn is_pending(&self) -> (r: bool)
        ensures
            r == (self is Pending),
    {
        match self {
            Poll::Ready(_) => false,
            Poll::Pending => true,
        }
    }
}

/// What a poll for entry into processing does once the waker is registered.
#[derive(Clone, Copy, Debug, PartialEq, Eq, Structural)]
pub enum AcquireStep {
    /// Nothing; the future stays pending.
    Wait,
    /// Ask the host for processing under the mutex; the future stays pending.
    Request,
    /// Hand out the value guard; the future is done.
    Enter,
}

/// The step that a poll for entry takes at a stage.
pub open spec fn acquire_step(stage: Stage, request: bool) -> AcquireStep {
    match stage {
        Stage::Idle => if request {
            AcquireStep::Request
        } else {
            AcquireStep::Wait
        },
        Stage::Requested => AcquireStep::Wait,
        Stage::Processing => AcquireStep::Enter,
        Stage::Committed => AcquireStep::Wait,
    }
}

/// Executable form of [`acquire_step`].
pub fn decide_acquire(stage: Stage, request: bool) -> (step: AcquireStep)
    ensures
        step == acquire_step(stage, request),
{
    match stage {
        Stage::Idle => if request {
            AcquireStep::Request
        } else {
            AcquireStep::Wait
        },
        Stage::Requested => AcquireStep::Wait,
        Stage::Processing => AcquireStep::Enter,
        Stage::Committed => AcquireStep::Wait,
    }
}

/// The variable after a poll for entry with `waker`.
pub open spec fn acquire_poll(before: VariableView, request: bool, waker: u64) -> VariableView {
    if acquire_step(before.stage, request) == AcquireStep::Request {
        requested(registered(before, waker))
    } else {
        registered(before, waker)
    }
}

/// Whether a poll for the end of the cycle is done at a stage: it stays
/// pending while the commit has not been observed by the host.
pub open spec fn commit_done(stage: Stage) -> bool {
    stage != Stage::Committed
}

/// Executable form of [`commit_done`].
pub fn decide_commit(stage: Stage) -> (done: bool)
    ensures
        done == commit_done(stage),
{
    match stage {
        Stage::Committed => false,
        _ => true,
    }
}

/// How far a future that runs a whole cycle has come.
#[derive(Clone, Copy, Debug, PartialEq, Eq, Structural)]
pub enum Phase {
    /// Waiting for the host to begin processing.
    Acquire,
    /// The value was handled and committed; waiting for the host to observe
    /// the commit.
    Commit,
    /// The cycle is over.
    Complete,
}

/// The phase of a whole-cycle future after a poll that finds the variable at
/// `stage`.
pub open spec fn cycle_phase(phase: Phase, stage: Stage) -> Phase {
    match phase {
        Phase::Acquire => if stage == Stage::Processing {
            Phase::Commit
        } else {
            Phase::Acquire
        },
        Phase::Commit => if commit_done(stage) {
            Phase::Complete
        } else {
            Phase::Commit
        },
        Phase::Complete => Phase::Complete,
    }
}

/// Future that ends in a value guard once the variable is being processed.
#[must_use]
#[derive(Debug)]
pub struct Acquire<V: Value + ?Sized, const PERM: u32> {
    request: bool,
    _phantom: PhantomData<V>,
}

impl<V: Value + ?Sized, const PERM: u32> Acquire<V, PERM> {
    /// Whether the future asks the host for processing or only waits for it.
    pub closed spec fn is_request(&self) -> bool {
        self.request
    }

    /// Registers `waker`, then observes the stage. At `Idle` a requesting
    /// future takes the mutex for the length of the request and moves the
    /// variable to `Requested`; at `Processing` the value guard is handed
    /// out, and the variable is the guard's until the guard ends; at every
    /// other stage nothing but the waker slot changes.
    pub fn poll<'a>(&self, owner: &'a mut TypedVariable<V, PERM>, waker: u64) -> (res: Poll<
        ValueGuard<'a, V, PERM>,
    >)
        requires
            old(owner).wf(),
        ensures
            res is Ready <==> old(owner)@.stage == Stage::Processing,
            res matches Poll::Ready(guard) ==> (*guard.owner)@ == acquire_poll(
                old(owner)@,
                self.is_request(),
                waker,
            ) && (*guard.owner).wf() && *final(owner) == *final(guard.owner),
            res is Pending ==> final(owner)@ == acquire_poll(
                old(owner)@,
                self.is_request(),
                waker,
            ) && final(owner).wf(),
    {
        owner.base.set_waker(waker);
        match decide_acquire(owner.base.stage(), self.request) {
            AcquireStep::Wait => Poll::Pending,
            AcquireStep::Request => {
                let mut locked = owner.base.lock();
                locked.request_proc();
                locked.unlock();
                Poll::Pending
            },
            AcquireStep::Enter => Poll::Ready(ValueGuard { owner }),
        }
    }
}

/// The user's hold on the value while the variable is being processed: the
/// one borrow of the variable, so that nobody else writes. It ends with a
/// commit: by [`ValueGuard::accept`], by [`ValueGuard::reject`], or by
/// [`ValueGuard::release`].
#[must_use]
pub struct ValueGuard<'a, V: Value + ?Sized, const PERM: u32> {
    pub owner: &'a mut TypedVariable<V, PERM>,
}

impl<'a, V: Value + ?Sized, const PERM: u32> ValueGuard<'a, V, PERM> {
    /// Ends the hold: takes the mutex, moves the variable to `Committed` with
    /// `status`, releases the mutex.
    pub fn commit(self, status: Result<(), &str>) -> (commit: Commit<V, PERM>)
        requires
            (*old(self.owner)).wf(),
            (*old(self.owner))@.stage == Stage::Processing,
        ensures
            (*final(self.owner))@ == committed((*old(self.owner))@, status),
            (*final(self.owner)).wf(),
    {
        let mut locked = self.owner.base.lock();
        locked.commit(status);
        locked.unlock();
        Commit { _phantom: PhantomData }
    }

    /// Commits success.
    pub fn accept(self) -> (commit: Commit<V, PERM>)
        requires
            (*old(self.owner)).wf(),
            (*old(self.owner))@.stage == Stage::Processing,
        ensures
            (*final(self.owner))@ == committed((*old(self.owner))@, Ok(())),
            (*final(self.owner)).wf(),
    {
        self.commit(Ok(()))
    }

    /// Commits an error with `message` for the host; what was written to the
    /// value stays written.
    pub fn reject(self, message: &str) -> (commit: Commit<V, PERM>)
        requires
            (*old(self.owner)).wf(),
            (*old(self.owner))@.stage == Stage::Processing,
        ensures
            (*final(self.owner))@ == committed((*old(self.owner))@, Err(message)),
            (*final(self.owner)).wf(),
    {
        self.commit(Err(message))
    }

    /// Gives the hold up without a decision: the host is handed an error
    /// with the message [`UNHANDLED`], so that it does not wait forever.
    pub fn release(self)
        requires
            (*old(self.owner)).wf(),
            (*old(self.owner))@.stage == Stage::Processing,
        ensures
            (*final(self.owner))@ == committed((*old(self.owner))@, Err(UNHANDLED)),
            (*final(self.owner)).wf(),
    {
        let _ = self.commit(Err(UNHANDLED));
    }
}

/// Future that ends once the host has observed the commit.
#[must_use]
#[derive(Debug)]
pub struct Commit<V: Value + ?Sized, const PERM: u32> {
    _phantom: PhantomData<V>,
}

impl<V: Value + ?Sized, const PERM: u32> Commit<V, PERM> {
    /// The future of a commit that was made earlier.
    pub(crate) fn resume() -> (commit: Self) {
        Commit { _phantom: PhantomData }
    }

    /// Registers `waker`, then observes the stage: pending at `Committed`,
    /// done once the host has left it.
    pub fn poll(&self, owner: &mut TypedVariable<V, PERM>, waker: u64) -> (res: Poll<()>)
        requires
            old(owner).wf(),
            old(owner)@.stage != Stage::Requested,
        ensures
            final(owner)@ == registered(old(owner)@, waker),
            res is Ready <==> commit_done(old(owner)@.stage),
            final(owner).wf(),
    {
        owner.base.set_waker(waker);
        if decide_commit(owner.base.stage()) {
            Poll::Ready(())
        } else {
            Poll::Pending
        }
    }
}

} // verus!
