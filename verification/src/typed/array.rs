//! Array views: the host's storage seen as a vector of bounded length.

use crate::protocol::{lemma_run_keeps_value, run, touches_value, Event};
use crate::typed::{may_read, may_write, Commit, Type, TypedVariable, ValueGuard};
use crate::variable::{committed, resized, stored, Stage, VariableView};
use vstd::prelude::*;

verus! {

/// The bit patterns of a sequence of values.
pub open spec fn bits_of<T: Type>(items: Seq<T>) -> Seq<u64> {
    Seq::new(items.len(), |i: int| items[i].spec_to_bits())
}

/// The values that a sequence of bit patterns stands for.
pub open spec fn values_of<T: Type>(bits: Seq<u64>) -> Seq<T> {
    Seq::new(bits.len(), |i: int| T::spec_from_bits(bits[i]))
}

/// How many of `count` items an array of at most `max_len` elements takes.
pub open spec fn taken(count: nat, max_len: usize) -> nat {
    if count <= max_len {
        count
    } else {
        max_len as nat
    }
}

/// Executable form of [`taken`].
pub fn take_count(count: usize, max_len: usize) -> (n: usize)
    ensures
        n == taken(count as nat, max_len),
{
    if count <= max_len {
        count
    } else {
        max_len
    }
}

/// The variable after the user has cleared the array and pushed `items`
/// until it was full: the first elements are the items taken, the storage
/// behind them is as before, and the length is the number taken.
pub open spec fn array_stored(before: VariableView, items: Seq<u64>) -> VariableView {
    let n = taken(items.len(), before.info.max_len);
    VariableView {
        len: n,
        cells: Seq::new(
            before.cells.len(),
            |i: int|
                if i < n {
                    items[i]
                } else {
                    before.cells[i]
                },
        ),
        ..before
    }
}

impl<T: Type, const PERM: u32> TypedVariable<[T], PERM> {
    /// The greatest number of elements that the array can hold.
    pub fn max_len(&self) -> (n: usize)
        ensures
            n == self@.info.max_len,
    {
        self.info().max_len
    }

    /// Stores the first elements of `slice`, as many as the array can hold,
    /// in place of what the array held.
    pub(crate) fn fill(&mut self, slice: &[T])
        requires
            old(self).wf(),
            old(self)@.stage == Stage::Processing,
        ensures
            final(self)@ == array_stored(old(self)@, bits_of(slice@)),
            final(self).wf(),
    {
        let ghost before = self@;
        let n: usize = take_count(slice.len(), self.max_len());
        self.set_len(0);
        let mut i: usize = 0;
        proof {
            assert(self@.cells =~= Seq::new(
                before.cells.len(),
                |j: int|
                    if j < 0 {
                        bits_of(slice@)[j]
                    } else {
                        before.cells[j]
                    },
            ));
        }
        while i < n
            invariant
                i <= n,
                n == taken(slice@.len(), before.info.max_len),
                before.inv(),
                !before.locked,
                before.stage == Stage::Processing,
                self.wf(),
                self@ == (VariableView {
                    len: i as nat,
                    cells: Seq::new(
                        before.cells.len(),
                        |j: int|
                            if j < i {
                                bits_of(slice@)[j]
                            } else {
                                before.cells[j]
                            },
                    ),
                    ..before
                }),
            decreases n - i,
        {
            self.store(i, slice[i].to_bits());
            self.set_len(i + 1);
            proof {
                assert(self@.cells =~= Seq::new(
                    before.cells.len(),
                    |j: int|
                        if j < i + 1 {
                            bits_of(slice@)[j]
                        } else {
                            before.cells[j]
                        },
                ));
            }
            i += 1;
        }
    }

    /// Appends the elements in use to `vec`.
    pub(crate) fn copy_out(&self, vec: &mut Vec<T>)
        requires
            self.wf(),
        ensures
            final(vec)@ == old(vec)@ + values_of::<T>(self@.elements()),
    {
        let ghost start = vec@;
        let n = self.base().len();
        let mut i: usize = 0;
        while i < n
            invariant
                i <= n,
                n == self@.len,
                self@.inv(),
                self@.info.max_len <= self@.cells.len(),
                vec@ == start + values_of::<T>(self@.cells.take(i as int)),
            decreases n - i,
        {
            vec.push(T::from_bits(self.base().load(i)));
            proof {
                assert(vec@ =~= start + values_of::<T>(self@.cells.take(i + 1)));
            }
            i += 1;
        }
        proof {
            assert(vec@ =~= start + values_of::<T>(self@.elements()));
        }
    }

    /// Copies the elements in use to the front of `slice`.
    pub(crate) fn copy_to_slice(&self, slice: &mut [T]) -> (n: usize)
        requires
            self.wf(),
            self@.len <= old(slice)@.len(),
        ensures
            n == self@.len,
            final(slice)@ == values_of::<T>(self@.elements()) + old(slice)@.skip(self@.len as int),
    {
        let ghost start = slice@;
        let n = self.base().len();
        let mut i: usize = 0;
        while i < n
            invariant
                i <= n,
                n == self@.len,
                n <= start.len(),
                self@.inv(),
                self@.info.max_len <= self@.cells.len(),
                slice@.len() == start.len(),
                slice@ == values_of::<T>(self@.cells.take(i as int)) + start.skip(i as int),
            decreases n - i,
        {
            slice[i] = T::from_bits(self.base().load(i));
            proof {
                assert(slice@ =~= values_of::<T>(self@.cells.take(i + 1)) + start.skip(i + 1));
            }
            i += 1;
        }
        n
    }
}

impl<'a, T: Type, const PERM: u32> ValueGuard<'a, [T], PERM> {
    /// The number of elements in use.
    pub fn len(&self) -> (n: usize)
        requires
            (*self.owner).wf(),
        ensures
            n == (*old(self.owner))@.len,
            n <= (*old(self.owner))@.info.max_len,
    {
        self.owner.base().len()
    }

    /// The greatest number of elements that the array can hold.
    pub fn capacity(&self) -> (n: usize)
        ensures
            n == (*old(self.owner))@.info.max_len,
    {
        self.owner.max_len()
    }

    /// The element at `index`.
    pub fn get(&self, index: usize) -> (value: T)
        requires
            (*self.owner).wf(),
            index < (*self.owner)@.len,
        ensures
            value == T::spec_from_bits((*old(self.owner))@.cells[index as int]),
    {
        T::from_bits(self.owner.base().load(index))
    }

    /// Sets the length to zero; the storage is not touched.
    pub fn clear(&mut self)
        requires
            (*old(self).owner).wf(),
            (*old(self).owner)@.stage == Stage::Processing,
        ensures
            (*final(self).owner)@ == resized((*old(self).owner)@, 0),
            (*final(self).owner).wf(),
            *final(final(self).owner) == *final(old(self).owner),
    {
        self.owner.set_len(0);
    }

    /// Appends `value` if the array has room and hands `value` back if it
    /// is full.
    pub fn push(&mut self, value: T) -> (res: Result<(), T>)
        requires
            (*old(self).owner).wf(),
            (*old(self).owner)@.stage == Stage::Processing,
        ensures
            res is Ok <==> (*old(self).owner)@.len < (*old(self).owner)@.info.max_len,
            res is Ok ==> (*final(self).owner)@ == resized(
                stored(
                    (*old(self).owner)@,
                    (*old(self).owner)@.len as int,
                    value.spec_to_bits(),
                ),
                (*old(self).owner)@.len + 1,
            ),
            res matches Err(back) ==> back == value && (*final(self).owner)@ == (*old(
                self,
            ).owner)@,
            (*final(self).owner).wf(),
            *final(final(self).owner) == *final(old(self).owner),
    {
        let len = self.owner.base().len();
        if len < self.owner.max_len() {
            self.owner.store(len, value.to_bits());
            self.owner.set_len(len + 1);
            Ok(())
        } else {
            Err(value)
        }
    }

    /// Clears the array, pushes the elements of `slice` until the array is
    /// full, then commits success. Elements beyond the capacity are left
    /// out silently.
    pub fn write_from_slice(self, slice: &[T]) -> (commit: Commit<[T], PERM>)
        requires
            (*old(self.owner)).wf(),
            (*old(self.owner))@.stage == Stage::Processing,
            may_write(PERM),
        ensures
            (*final(self.owner))@ == committed(
                array_stored((*old(self.owner))@, bits_of(slice@)),
                Ok(()),
            ),
            (*final(self.owner)).wf(),
    {
        self.owner.fill(slice);
        self.accept()
    }

    /// As [`ValueGuard::write_from_slice`], from a vector.
    pub fn write_from(self, items: Vec<T>) -> (commit: Commit<[T], PERM>)
        requires
            (*old(self.owner)).wf(),
            (*old(self.owner))@.stage == Stage::Processing,
            may_write(PERM),
        ensures
            (*final(self.owner))@ == committed(
                array_stored((*old(self.owner))@, bits_of(items@)),
                Ok(()),
            ),
            (*final(self.owner)).wf(),
    {
        self.owner.fill(items.as_slice());
        self.accept()
    }

    /// As [`ValueGuard::write_from`]; kept for callers that hold the items
    /// of an iterator.
    pub fn write_from_iter(self, items: Vec<T>) -> (commit: Commit<[T], PERM>)
        requires
            (*old(self.owner)).wf(),
            (*old(self.owner))@.stage == Stage::Processing,
            may_write(PERM),
        ensures
            (*final(self.owner))@ == committed(
                array_stored((*old(self.owner))@, bits_of(items@)),
                Ok(()),
            ),
            (*final(self.owner)).wf(),
    {
        self.write_from(items)
    }

    /// Copies the elements in use into a new vector, then commits success.
    pub fn read_into_vec(self) -> (res: (Vec<T>, Commit<[T], PERM>))
        requires
            (*old(self.owner)).wf(),
            (*old(self.owner))@.stage == Stage::Processing,
            may_read(PERM),
        ensures
            res.0@ == values_of::<T>((*old(self.owner))@.elements()),
            (*final(self.owner))@ == committed((*old(self.owner))@, Ok(())),
            (*final(self.owner)).wf(),
    {
        let mut vec: Vec<T> = Vec::new();
        self.owner.copy_out(&mut vec);
        proof {
            assert(vec@ =~= values_of::<T>((*self.owner)@.elements()));
        }
        let commit = self.accept();
        (vec, commit)
    }

    /// Appends the elements in use to `vec`, then commits success.
    pub fn read_to_vec(self, vec: &mut Vec<T>) -> (commit: Commit<[T], PERM>)
        requires
            (*old(self.owner)).wf(),
            (*old(self.owner))@.stage == Stage::Processing,
            may_read(PERM),
        ensures
            final(vec)@ == old(vec)@ + values_of::<T>((*old(self.owner))@.elements()),
            (*final(self.owner))@ == committed((*old(self.owner))@, Ok(())),
            (*final(self.owner)).wf(),
    {
        self.owner.copy_out(vec);
        self.accept()
    }

    /// Copies the elements in use to the front of `slice`, then commits
    /// success; hands back their number. The rest of `slice` stays as it
    /// was.
    pub fn read_to_slice(self, slice: &mut [T]) -> (res: (usize, Commit<[T], PERM>))
        requires
            (*old(self.owner)).wf(),
            (*old(self.owner))@.stage == Stage::Processing,
            may_read(PERM),
            (*old(self.owner))@.len <= old(slice)@.len(),
        ensures
            res.0 == (*old(self.owner))@.len,
            final(slice)@ == values_of::<T>((*old(self.owner))@.elements()) + old(slice)@.skip(
                (*old(self.owner))@.len as int,
            ),
            (*final(self.owner))@ == committed((*old(self.owner))@, Ok(())),
            (*final(self.owner)).wf(),
    {
        let n = self.owner.copy_to_slice(slice);
        let commit = self.accept();
        (n, commit)
    }
}

/// Writing to an array takes as many items as the array can hold, in
/// their order, and no more: the storage keeps its size, what lies behind
/// the items taken is untouched, and nothing else of the variable changes.
pub proof fn lemma_array_write_is_bounded(before: VariableView, items: Seq<u64>)
    requires
        before.inv(),
    ensures
        array_stored(before, items).len == taken(items.len(), before.info.max_len),
        array_stored(before, items).len <= before.info.max_len,
        array_stored(before, items).elements() == items.take(
            taken(items.len(), before.info.max_len) as int,
        ),
        array_stored(before, items).cells.len() == before.cells.len(),
        forall|i: int|
            taken(items.len(), before.info.max_len) <= i < before.cells.len() ==> array_stored(
                before,
                items,
            ).cells[i] == before.cells[i],
        array_stored(before, items) == (VariableView {
            len: array_stored(before, items).len,
            cells: array_stored(before, items).cells,
            ..before
        }),
        array_stored(before, items).inv(),
{
    let after = array_stored(before, items);
    let n = taken(items.len(), before.info.max_len);
    assert(after.elements() =~= items.take(n as int));
}

/// The items written to an array that has room for them are the elements
/// that a later read copies out, whatever host and user do in between, as
/// long as nothing touches the value.
pub proof fn lemma_array_round_trip<T: Type>(before: VariableView, items: Seq<T>, events: Seq<Event>)
    requires
        before.inv(),
        before.stage == Stage::Processing,
        items.len() <= before.info.max_len,
        run(committed(array_stored(before, bits_of(items)), Ok(())), events) is Some,
        forall|i: int| 0 <= i < events.len() ==> !touches_value(#[trigger] events[i]),
    ensures
        values_of::<T>(
            run(committed(array_stored(before, bits_of(items)), Ok(())), events).unwrap().elements(),
        ) == items,
{
    let written = committed(array_stored(before, bits_of(items)), Ok(()));
    lemma_run_keeps_value(written, events);
    lemma_array_write_is_bounded(before, bits_of(items));
    let read = values_of::<T>(run(written, events).unwrap().elements());
    assert(read.len() == items.len());
    assert forall|i: int| 0 <= i < items.len() implies read[i] == items[i] by {
        T::lemma_round_trip(items[i]);
    }
    assert(read =~= items);
}

} // verus!
