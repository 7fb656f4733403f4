//! A scalar that the user writes: one call runs the whole cycle, from the
//! request to the host's taking the value.

use crate::downcast::Downcast;
use crate::import::{PERM_REQUEST, PERM_WRITE};
use crate::typed::scalar::scalar_stored;
use crate::typed::{acquire_poll, cycle_phase, Commit, Phase, Poll, Type, TypedVariable};
use crate::variable::{committed, registered, Stage, Variable, VariableView};
use vstd::prelude::*;

verus! {

/// Permission bits of a view that writes and requests.
pub const WRITE_REQUEST: u32 = PERM_WRITE + PERM_REQUEST;

/// A scalar variable that grants writing and requesting.
pub struct WriteVariable<T: Type> {
    pub typed: TypedVariable<T, WRITE_REQUEST>,
}

impl<T: Type> Downcast<WriteVariable<T>> for Variable {
    open spec fn spec_downcast(self) -> Option<WriteVariable<T>> {
        match Downcast::<TypedVariable<T, WRITE_REQUEST>>::spec_downcast(self) {
            Some(typed) => Some(WriteVariable { typed }),
            None => None,
        }
    }

    fn downcast(self) -> (r: Option<WriteVariable<T>>) {
        WriteVariable::from_raw(self)
    }
}

impl<T: Type> WriteVariable<T> {
    /// The view of `raw`, if `raw` is of this type and shape and grants
    /// writing and requesting.
    pub fn from_raw(raw: Variable) -> (r: Option<Self>)
        ensures
            r == Downcast::<WriteVariable<T>>::spec_downcast(raw),
    {
        match Downcast::<TypedVariable<T, WRITE_REQUEST>>::downcast(raw) {
            Some(typed) => Some(WriteVariable { typed }),
            None => None,
        }
    }
}

/// The variable after a poll of a writing future with `waker`: while
/// waiting, what a requesting poll for entry does; on entry, the value is
/// stored and success committed; afterwards only the waker is registered.
pub open spec fn write_poll(before: VariableView, phase: Phase, bits: u64, waker: u64) -> VariableView {
    if phase == Phase::Acquire {
        if before.stage == Stage::Processing {
            committed(scalar_stored(registered(before, waker), bits), Ok(()))
        } else {
            acquire_poll(before, true, waker)
        }
    } else {
        registered(before, waker)
    }
}

impl<T: Type> WriteVariable<T> {
    /// A future that asks for processing, stores `value` once the host
    /// processes the variable, commits success and waits for the host to
    /// observe it.
    pub fn write(&mut self, value: T) -> (future: WriteFuture<T>)
        ensures
            future.spec_value() == value,
            future.spec_phase() == Phase::Acquire,
            *final(self) == *old(self),
    {
        WriteFuture { value, phase: Phase::Acquire }
    }
}

/// Future of one written cycle.
#[must_use]
pub struct WriteFuture<T: Type> {
    value: T,
    phase: Phase,
}

impl<T: Type> WriteFuture<T> {
    /// The value to be written.
    pub closed spec fn spec_value(&self) -> T {
        self.value
    }

    pub closed spec fn spec_phase(&self) -> Phase {
        self.phase
    }

    /// How far the future has come.
    pub fn phase(&self) -> (phase: Phase)
        ensures
            phase == self.spec_phase(),
    {
        self.phase
    }

    /// One step of the cycle. The future is done once the host has left
    /// `Committed` after this future's commit; it is not polled again then.
    pub fn poll(&mut self, owner: &mut WriteVariable<T>, waker: u64) -> (res: Poll<()>)
        requires
            old(owner).typed.wf(),
            old(self).spec_phase() != Phase::Complete,
            old(self).spec_phase() == Phase::Commit ==> old(owner).typed@.stage
                != Stage::Requested,
        ensures
            final(owner).typed.wf(),
            final(owner).typed@ == write_poll(
                old(owner).typed@,
                old(self).spec_phase(),
                old(self).spec_value().spec_to_bits(),
                waker,
            ),
            final(self).spec_phase() == cycle_phase(old(self).spec_phase(), old(owner).typed@.stage),
            final(self).spec_value() == old(self).spec_value(),
            res is Ready <==> final(self).spec_phase() == Phase::Complete,
    {
        match self.phase {
            Phase::Acquire => {
                let acquire = owner.typed.request();
                match acquire.poll(&mut owner.typed, waker) {
                    Poll::Ready(guard) => {
                        let _ = guard.write(self.value);
                        self.phase = Phase::Commit;
                    },
                    Poll::Pending => {},
                }
                Poll::Pending
            },
            _ => {
                let commit = Commit::<T, WRITE_REQUEST>::resume();
                match commit.poll(&mut owner.typed, waker) {
                    Poll::Ready(_) => {
                        self.phase = Phase::Complete;
                        Poll::Ready(())
                    },
                    Poll::Pending => Poll::Pending,
                }
            },
        }
    }
}

} // verus!
