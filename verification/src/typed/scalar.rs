//! Scalar views: the element types of the host, and reading and writing the
//! one value of a scalar variable.

use crate::import::FerVarType;
use crate::protocol::{lemma_run_keeps_value, run, touches_value, Event};
use crate::typed::{may_read, may_write, Commit, Type, TypedVariable, ValueGuard};
use crate::variable::{committed, stored, Stage, VariableView};
use vstd::prelude::*;

verus! {

/// A 32-bit floating-point value, held by its bit pattern.
#[derive(Clone, Copy, Debug, PartialEq, Eq, Structural)]
pub struct F32Bits(pub u32);

/// A 64-bit floating-point value, held by its bit pattern.
#[derive(Clone, Copy, Debug, PartialEq, Eq, Structural)]
pub struct F64Bits(pub u64);

impl Type for u8 {
    open spec fn spec_type() -> FerVarType {
        FerVarType::U8
    }

    open spec fn spec_to_bits(self) -> u64 {
        self as u64
    }

    open spec fn spec_from_bits(bits: u64) -> u8 {
        (bits % 256) as u8
    }

    fn type_() -> (t: FerVarType) {
        FerVarType::U8
    }

    fn to_bits(self) -> (bits: u64) {
        self as u64
    }

    fn from_bits(bits: u64) -> (value: u8) {
        (bits % 256) as u8
    }

    proof fn lemma_round_trip(value: u8) {
    }
}

impl Type for i8 {
    open spec fn spec_type() -> FerVarType {
        FerVarType::I8
    }

    open spec fn spec_to_bits(self) -> u64 {
        if self >= 0 {
            self as u64
        } else {
            (self as int + 256) as u64
        }
    }

    open spec fn spec_from_bits(bits: u64) -> i8 {
        let low = bits % 256;
        if low < 128 {
            low as i8
        } else {
            (low as int - 256) as i8
        }
    }

    fn type_() -> (t: FerVarType) {
        FerVarType::I8
    }

    fn to_bits(self) -> (bits: u64) {
        if self >= 0 {
            self as u64
        } else {
            (self as i64 + 256) as u64
        }
    }

    fn from_bits(bits: u64) -> (value: i8) {
        let low: u64 = bits % 256;
        if low < 128 {
            low as i8
        } else {
            (low as i64 - 256) as i8
        }
    }

    proof fn lemma_round_trip(value: i8) {
    }
}

impl Type for u16 {
    open spec fn spec_type() -> FerVarType {
        FerVarType::U16
    }

    open spec fn spec_to_bits(self) -> u64 {
        self as u64
    }

    open spec fn spec_from_bits(bits: u64) -> u16 {
        (bits % 65536) as u16
    }

    fn type_() -> (t: FerVarType) {
        FerVarType::U16
    }

    fn to_bits(self) -> (bits: u64) {
        self as u64
    }

    fn from_bits(bits: u64) -> (value: u16) {
        (bits % 65536) as u16
    }

    proof fn lemma_round_trip(value: u16) {
    }
}

impl Type for i16 {
    open spec fn spec_type() -> FerVarType {
        FerVarType::I16
    }

    open spec fn spec_to_bits(self) -> u64 {
        if self >= 0 {
            self as u64
        } else {
            (self as int + 65536) as u64
        }
    }

    open spec fn spec_from_bits(bits: u64) -> i16 {
        let low = bits % 65536;
        if low < 32768 {
            low as i16
        } else {
            (low as int - 65536) as i16
        }
    }

    fn type_() -> (t: FerVarType) {
        FerVarType::I16
    }

    fn to_bits(self) -> (bits: u64) {
        if self >= 0 {
            self as u64
        } else {
            (self as i64 + 65536) as u64
        }
    }

    fn from_bits(bits: u64) -> (value: i16) {
        let low: u64 = bits % 65536;
        if low < 32768 {
            low as i16
        } else {
            (low as i64 - 65536) as i16
        }
    }

    proof fn lemma_round_trip(value: i16) {
    }
}

impl Type for u32 {
    open spec fn spec_type() -> FerVarType {
        FerVarType::U32
    }

    open spec fn spec_to_bits(self) -> u64 {
        self as u64
    }

    open spec fn spec_from_bits(bits: u64) -> u32 {
        (bits % 4294967296) as u32
    }

    fn type_() -> (t: FerVarType) {
        FerVarType::U32
    }

    fn to_bits(self) -> (bits: u64) {
        self as u64
    }

    fn from_bits(bits: u64) -> (value: u32) {
        (bits % 4294967296) as u32
    }

    proof fn lemma_round_trip(value: u32) {
    }
}

impl Type for i32 {
    open spec fn spec_type() -> FerVarType {
        FerVarType::I32
    }

    open spec fn spec_to_bits(self) -> u64 {
        if self >= 0 {
            self as u64
        } else {
            (self as int + 4294967296) as u64
        }
    }

    open spec fn spec_from_bits(bits: u64) -> i32 {
        let low = bits % 4294967296;
        if low < 2147483648 {
            low as i32
        } else {
            (low as int - 4294967296) as i32
        }
    }

    fn type_() -> (t: FerVarType) {
        FerVarType::I32
    }

    fn to_bits(self) -> (bits: u64) {
        if self >= 0 {
            self as u64
        } else {
            (self as i64 + 4294967296) as u64
        }
    }

    fn from_bits(bits: u64) -> (value: i32) {
        let low: u64 = bits % 4294967296;
        if low < 2147483648 {
            low as i32
        } else {
            (low as i64 - 4294967296) as i32
        }
    }

    proof fn lemma_round_trip(value: i32) {
    }
}

impl Type for u64 {
    open spec fn spec_type() -> FerVarType {
        FerVarType::U64
    }

    open spec fn spec_to_bits(self) -> u64 {
        self
    }

    open spec fn spec_from_bits(bits: u64) -> u64 {
        bits
    }

    fn type_() -> (t: FerVarType) {
        FerVarType::U64
    }

    fn to_bits(self) -> (bits: u64) {
        self
    }

    fn from_bits(bits: u64) -> (value: u64) {
        bits
    }

    proof fn lemma_round_trip(value: u64) {
    }
}

impl Type for i64 {
    open spec fn spec_type() -> FerVarType {
        FerVarType::I64
    }

    open spec fn spec_to_bits(self) -> u64 {
        if self >= 0 {
            self as u64
        } else {
            (self as int + 18446744073709551616) as u64
        }
    }

    open spec fn spec_from_bits(bits: u64) -> i64 {
        let low = bits;
        if low < 9223372036854775808 {
            low as i64
        } else {
            (low as int - 18446744073709551616) as i64
        }
    }

    fn type_() -> (t: FerVarType) {
        FerVarType::I64
    }

    fn to_bits(self) -> (bits: u64) {
        if self >= 0 {
            self as u64
        } else {
            (self as i128 + 18446744073709551616) as u64
        }
    }

    fn from_bits(bits: u64) -> (value: i64) {
        let low: u64 = bits;
        if low < 9223372036854775808 {
            low as i64
        } else {
            (low as i128 - 18446744073709551616) as i64
        }
    }

    proof fn lemma_round_trip(value: i64) {
    }
}

impl Type for F32Bits {
    open spec fn spec_type() -> FerVarType {
        FerVarType::F32
    }

    open spec fn spec_to_bits(self) -> u64 {
        self.0 as u64
    }

    open spec fn spec_from_bits(bits: u64) -> F32Bits {
        F32Bits((bits % 4294967296) as u32)
    }

    fn type_() -> (t: FerVarType) {
        FerVarType::F32
    }

    fn to_bits(self) -> (bits: u64) {
        self.0 as u64
    }

    fn from_bits(bits: u64) -> (value: F32Bits) {
        F32Bits((bits % 4294967296) as u32)
    }

    proof fn lemma_round_trip(value: F32Bits) {
    }
}

impl Type for F64Bits {
    open spec fn spec_type() -> FerVarType {
        FerVarType::F64
    }

    open spec fn spec_to_bits(self) -> u64 {
        self.0
    }

    open spec fn spec_from_bits(bits: u64) -> F64Bits {
        F64Bits(bits)
    }

    fn type_() -> (t: FerVarType) {
        FerVarType::F64
    }

    fn to_bits(self) -> (bits: u64) {
        self.0
    }

    fn from_bits(bits: u64) -> (value: F64Bits) {
        F64Bits(bits)
    }

    proof fn lemma_round_trip(value: F64Bits) {
    }
}

/// The variable after the user has stored `bits` as the value of a scalar.
pub open spec fn scalar_stored(before: VariableView, bits: u64) -> VariableView {
    stored(before, 0, bits)
}

impl<'a, T: Type, const PERM: u32> ValueGuard<'a, T, PERM> {
    /// The value as it stands in the host's storage.
    pub fn get(&self) -> (value: T)
        requires
            (*self.owner).wf(),
            (*self.owner)@.stage == Stage::Processing,
        ensures
            value == T::spec_from_bits((*old(self.owner))@.cells[0]),
    {
        T::from_bits(self.owner.base().load(0))
    }

    /// Stores `value` in the host's storage.
    pub fn set(&mut self, value: T)
        requires
            (*old(self).owner).wf(),
            (*old(self).owner)@.stage == Stage::Processing,
        ensures
            (*final(self).owner)@ == scalar_stored((*old(self).owner)@, value.spec_to_bits()),
            (*final(self).owner).wf(),
            *final(final(self).owner) == *final(old(self).owner),
    {
        self.owner.store(0, value.to_bits());
    }

    /// Stores `value`, then commits success.
    pub fn write(self, value: T) -> (commit: Commit<T, PERM>)
        requires
            (*old(self.owner)).wf(),
            (*old(self.owner))@.stage == Stage::Processing,
            may_write(PERM),
        ensures
            (*final(self.owner))@ == committed(
                scalar_stored((*old(self.owner))@, value.spec_to_bits()),
                Ok(()),
            ),
            (*final(self.owner)).wf(),
    {
        self.owner.store(0, value.to_bits());
        self.accept()
    }

    /// Copies the value out, then commits success.
    pub fn read(self) -> (res: (T, Commit<T, PERM>))
        requires
            (*old(self.owner)).wf(),
            (*old(self.owner))@.stage == Stage::Processing,
            may_read(PERM),
        ensures
            res.0 == T::spec_from_bits((*old(self.owner))@.cells[0]),
            (*final(self.owner))@ == committed((*old(self.owner))@, Ok(())),
            (*final(self.owner)).wf(),
    {
        let value = T::from_bits(self.owner.base().load(0));
        let commit = self.accept();
        (value, commit)
    }
}

/// A value written to a scalar is the value that a later read copies out,
/// whatever host and user do in between, as long as nothing touches the
/// value.
pub proof fn lemma_scalar_round_trip<T: Type>(before: VariableView, value: T, events: Seq<Event>)
    requires
        before.inv(),
        before.stage == Stage::Processing,
        run(committed(scalar_stored(before, value.spec_to_bits()), Ok(())), events) is Some,
        forall|i: int| 0 <= i < events.len() ==> !touches_value(#[trigger] events[i]),
    ensures
        T::spec_from_bits(
            run(
                committed(scalar_stored(before, value.spec_to_bits()), Ok(())),
                events,
            ).unwrap().cells[0],
        ) == value,
{
    lemma_run_keeps_value(committed(scalar_stored(before, value.spec_to_bits()), Ok(())), events);
    T::lemma_round_trip(value);
}

} // verus!
