//! A scalar that the user reads: one call runs the whole cycle, from the
//! request to the host's taking note that the value was read.

use crate::downcast::Downcast;
use crate::import::{PERM_READ, PERM_REQUEST};
use crate::typed::{acquire_poll, cycle_phase, Commit, Phase, Poll, Type, TypedVariable};
use crate::variable::{committed, registered, Stage, Variable, VariableView};
use vstd::prelude::*;

verus! {

/// Permission bits of a view that reads and requests.
pub const READ_REQUEST: u32 = PERM_READ + PERM_REQUEST;

/// A scalar variable that grants reading and requesting.
pub struct ReadVariable<T: Type> {
    pub typed: TypedVariable<T, READ_REQUEST>,
}

impl<T: Type> Downcast<ReadVariable<T>> for Variable {
    open spec fn spec_downcast(self) -> Option<ReadVariable<T>> {
        match Downcast::<TypedVariable<T, READ_REQUEST>>::spec_downcast(self) {
            Some(typed) => Some(ReadVariable { typed }),
            None => None,
        }
    }

    fn downcast(self) -> (r: Option<ReadVariable<T>>) {
        ReadVariable::from_raw(self)
    }
}

impl<T: Type> ReadVariable<T> {
    /// The view of `raw`, if `raw` is of this type and shape and grants
    /// reading and requesting.
    pub fn from_raw(raw: Variable) -> (r: Option<Self>)
        ensures
            r == Downcast::<ReadVariable<T>>::spec_downcast(raw),
    {
        match Downcast::<TypedVariable<T, READ_REQUEST>>::downcast(raw) {
            Some(typed) => Some(ReadVariable { typed }),
            None => None,
        }
    }
}

/// The variable after a poll of a reading future with `waker`: while
/// waiting, what a requesting poll for entry does; on entry, success is
/// committed with the value untouched; afterwards only the waker is
/// registered.
pub open spec fn read_poll(before: VariableView, phase: Phase, waker: u64) -> VariableView {
    if phase == Phase::Acquire {
        if before.stage == Stage::Processing {
            committed(registered(before, waker), Ok(()))
        } else {
            acquire_poll(before, true, waker)
        }
    } else {
        registered(before, waker)
    }
}

/// The value that a reading future holds after a poll: the one copied out on
/// entry, kept from then on.
pub open spec fn read_value<T: Type>(held: Option<T>, before: VariableView, phase: Phase) -> Option<
    T,
> {
    if phase == Phase::Acquire && before.stage == Stage::Processing {
        Some(T::spec_from_bits(before.cells[0]))
    } else {
        held
    }
}

impl<T: Type> ReadVariable<T> {
    /// A future that asks for processing, copies the value out once the
    /// host processes the variable, commits success and waits for the host
    /// to observe it.
    pub fn read(&mut self) -> (future: ReadFuture<T>)
        ensures
            future.spec_value() is None,
            future.spec_phase() == Phase::Acquire,
            future.inv(),
            *final(self) == *old(self),
    {
        ReadFuture { value: None, phase: Phase::Acquire }
    }
}

/// Future of one read cycle.
#[must_use]
pub struct ReadFuture<T: Type> {
    value: Option<T>,
    phase: Phase,
}

impl<T: Type> ReadFuture<T> {
    /// The value copied out, once the variable was entered.
    pub closed spec fn spec_value(&self) -> Option<T> {
        self.value
    }

    pub closed spec fn spec_phase(&self) -> Phase {
        self.phase
    }

    /// A value is held from the entry on.
    pub open spec fn inv(&self) -> bool {
        self.spec_phase() == Phase::Commit ==> self.spec_value() is Some
    }

    /// How far the future has come.
    pub fn phase(&self) -> (phase: Phase)
        ensures
            phase == self.spec_phase(),
    {
        self.phase
    }

    /// One step of the cycle. The future is done, with the value that it
    /// copied out, once the host has left `Committed` after this future's
    /// commit; it is not polled again then.
    pub fn poll(&mut self, owner: &mut ReadVariable<T>, waker: u64) -> (res: Poll<T>)
        requires
            old(owner).typed.wf(),
            old(self).inv(),
            old(self).spec_phase() != Phase::Complete,
            old(self).spec_phase() == Phase::Commit ==> old(owner).typed@.stage
                != Stage::Requested,
        ensures
            final(owner).typed.wf(),
            final(self).inv(),
            final(owner).typed@ == read_poll(old(owner).typed@, old(self).spec_phase(), waker),
            final(self).spec_phase() == cycle_phase(old(self).spec_phase(), old(owner).typed@.stage),
            final(self).spec_value() == read_value(
                old(self).spec_value(),
                old(owner).typed@,
                old(self).spec_phase(),
            ),
            res is Ready <==> final(self).spec_phase() == Phase::Complete,
            res matches Poll::Ready(value) ==> old(self).spec_value() == Some(value),
    {
        match self.phase {
            Phase::Acquire => {
                let acquire = owner.typed.request();
                match acquire.poll(&mut owner.typed, waker) {
                    Poll::Ready(guard) => {
                        let (value, _) = guard.read();
                        self.value = Some(value);
                        self.phase = Phase::Commit;
                    },
                    Poll::Pending => {},
                }
                Poll::Pending
            },
            _ => {
                let commit = Commit::<T, READ_REQUEST>::resume();
                match (commit.poll(&mut owner.typed, waker), self.value) {
                    (Poll::Ready(_), Some(value)) => {
                        self.phase = Phase::Complete;
                        Poll::Ready(value)
                    },
                    _ => Poll::Pending,
                }
            },
        }
    }
}

} // verus!
