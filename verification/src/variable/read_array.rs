//! An array that the user reads, in place or into a slice of the user's.

use crate::downcast::Downcast;
use crate::typed::array::values_of;
use crate::typed::{
    acquire_poll, cycle_phase, Commit, Phase, Poll, Type, TypedVariable, ValueGuard,
};
use crate::variable::read::{read_poll, READ_REQUEST};
use crate::variable::{Stage, Variable};
use crate::typed::Acquire;
use vstd::prelude::*;

verus! {

/// An array variable that grants reading and requesting.
pub struct ReadArrayVariable<T: Type> {
    pub typed: TypedVariable<[T], READ_REQUEST>,
}

impl<T: Type> Downcast<ReadArrayVariable<T>> for Variable {
    open spec fn spec_downcast(self) -> Option<ReadArrayVariable<T>> {
        match Downcast::<TypedVariable<[T], READ_REQUEST>>::spec_downcast(self) {
            Some(typed) => Some(ReadArrayVariable { typed }),
            None => None,
        }
    }

    fn downcast(self) -> (r: Option<ReadArrayVariable<T>>) {
        ReadArrayVariable::from_raw(self)
    }
}

impl<T: Type> ReadArrayVariable<T> {
    /// The view of `raw`, if `raw` is of this type and shape and grants
    /// reading and requesting.
    pub fn from_raw(raw: Variable) -> (r: Option<Self>)
        ensures
            r == Downcast::<ReadArrayVariable<T>>::spec_downcast(raw),
    {
        match Downcast::<TypedVariable<[T], READ_REQUEST>>::downcast(raw) {
            Some(typed) => Some(ReadArrayVariable { typed }),
            None => None,
        }
    }
}

/// What a read into a slice of `room` elements gives for an array that
/// holds `len`: the number copied, or nothing if the slice is too short.
pub open spec fn slice_outcome(len: nat, room: nat) -> Option<usize> {
    if len <= room {
        Some(len as usize)
    } else {
        None
    }
}

/// The slice after a poll of a future that reads into it: on entry, if the
/// slice has room, its front holds the array's elements; else it is as
/// before.
pub open spec fn slice_filled<T: Type>(
    dst: Seq<T>,
    phase: Phase,
    stage: Stage,
    elements: Seq<u64>,
) -> Seq<T> {
    if phase == Phase::Acquire && stage == Stage::Processing && elements.len() <= dst.len() {
        values_of::<T>(elements) + dst.skip(elements.len() as int)
    } else {
        dst
    }
}

impl<T: Type> ReadArrayVariable<T> {
    /// A future that asks for processing and ends in a guard over the
    /// array as it stands in the host's storage.
    pub fn read_in_place(&mut self) -> (future: ReadInPlaceFuture<T>)
        ensures
            future.is_request(),
            *final(self) == *old(self),
    {
        ReadInPlaceFuture { acquire: self.typed.request() }
    }

    /// A future that asks for processing, copies the array to the front of
    /// a slice once the host processes the variable, if the slice has
    /// room, commits success and waits for the host to observe it.
    pub fn read_to_slice(&mut self) -> (future: ReadSliceFuture)
        ensures
            future.spec_phase() == Phase::Acquire,
            *final(self) == *old(self),
    {
        ReadSliceFuture { copied: None, phase: Phase::Acquire }
    }
}

/// Future that ends in a guard over the array: the future for entry that it
/// polls for the caller.
#[must_use]
pub struct ReadInPlaceFuture<T: Type> {
    acquire: Acquire<[T], READ_REQUEST>,
}

impl<T: Type> ReadInPlaceFuture<T> {
    /// Whether the future asks the host for processing or only waits for it.
    pub closed spec fn is_request(&self) -> bool {
        self.acquire.is_request()
    }

    /// As [`Acquire::poll`] of the future for entry that this one holds.
    pub fn poll<'a>(&self, owner: &'a mut ReadArrayVariable<T>, waker: u64) -> (res: Poll<
        ValueGuard<'a, [T], READ_REQUEST>,
    >)
        requires
            old(owner).typed.wf(),
        ensures
            res is Ready <==> old(owner).typed@.stage == Stage::Processing,
            res matches Poll::Ready(guard) ==> (*guard.owner)@ == acquire_poll(
                old(owner).typed@,
                self.is_request(),
                waker,
            ) && (*guard.owner).wf() && final(owner).typed == *final(guard.owner),
            res is Pending ==> final(owner).typed@ == acquire_poll(
                old(owner).typed@,
                self.is_request(),
                waker,
            ) && final(owner).typed.wf(),
    {
        self.acquire.poll(&mut owner.typed, waker)
    }
}

/// Future of one cycle that reads an array into a slice.
#[must_use]
pub struct ReadSliceFuture {
    copied: Option<usize>,
    phase: Phase,
}

impl ReadSliceFuture {
    /// The number of elements copied, once the variable was entered with a
    /// slice that had room.
    pub closed spec fn spec_copied(&self) -> Option<usize> {
        self.copied
    }

    pub closed spec fn spec_phase(&self) -> Phase {
        self.phase
    }

    /// How far the future has come.
    pub fn phase(&self) -> (phase: Phase)
        ensures
            phase == self.spec_phase(),
    {
        self.phase
    }

    /// One step of the cycle. The future is done once the host has left
    /// `Committed` after this future's commit, with the number of elements
    /// copied, or with nothing if the slice was too short; it is not polled
    /// again then.
    pub fn poll<T: Type>(
        &mut self,
        owner: &mut ReadArrayVariable<T>,
        dst: &mut [T],
        waker: u64,
    ) -> (res: Poll<Option<usize>>)
        requires
            old(owner).typed.wf(),
            old(self).spec_phase() != Phase::Complete,
            old(self).spec_phase() == Phase::Commit ==> old(owner).typed@.stage
                != Stage::Requested,
        ensures
            final(owner).typed.wf(),
            final(owner).typed@ == read_poll(old(owner).typed@, old(self).spec_phase(), waker),
            final(self).spec_phase() == cycle_phase(old(self).spec_phase(), old(owner).typed@.stage),
            final(dst)@ == slice_filled(
                old(dst)@,
                old(self).spec_phase(),
                old(owner).typed@.stage,
                old(owner).typed@.elements(),
            ),
            final(self).spec_copied() == (if old(self).spec_phase() == Phase::Acquire && old(
                owner,
            ).typed@.stage == Stage::Processing {
                slice_outcome(old(owner).typed@.len, old(dst)@.len())
            } else {
                old(self).spec_copied()
            }),
            res is Ready <==> final(self).spec_phase() == Phase::Complete,
            res matches Poll::Ready(copied) ==> copied == old(self).spec_copied(),
    {
        match self.phase {
            Phase::Acquire => {
                let acquire = owner.typed.request();
                match acquire.poll(&mut owner.typed, waker) {
                    Poll::Ready(guard) => {
                        if guard.len() <= dst.len() {
                            let (n, _) = guard.read_to_slice(dst);
                            self.copied = Some(n);
                        } else {
                            let _ = guard.accept();
                            self.copied = None;
                        }
                        self.phase = Phase::Commit;
                    },
                    Poll::Pending => {},
                }
                Poll::Pending
            },
            _ => {
                let commit = Commit::<[T], READ_REQUEST>::resume();
                match commit.poll(&mut owner.typed, waker) {
                    Poll::Ready(_) => {
                        self.phase = Phase::Complete;
                        Poll::Ready(self.copied)
                    },
                    Poll::Pending => Poll::Pending,
                }
            },
        }
    }
}

} // verus!
