//! The data that crosses the boundary to the host: type codes, permission
//! bits, variable metadata, the value cell and the host's record of a variable.

use vstd::prelude::*;
use vstd::string::StringExecFns;

verus! {

/// Permission bit: the variable may be read.
pub const PERM_READ: u32 = 1;

/// Permission bit: the variable may be written.
pub const PERM_WRITE: u32 = 2;

/// Permission bit: processing of the variable may be requested.
pub const PERM_REQUEST: u32 = 4;

/// All three permission bits.
pub const PERM_ALL: u32 = PERM_READ + PERM_WRITE + PERM_REQUEST;

/// Status code of a successful commit.
pub const STATUS_OK: u32 = 0;

/// Status code of a commit that reports an error.
pub const STATUS_ERROR: u32 = 1;

/// Element type of a process variable.
#[derive(Clone, Copy, Debug, PartialEq, Eq, Structural)]
pub enum FerVarType {
    U8,
    I8,
    U16,
    I16,
    U32,
    I32,
    U64,
    I64,
    F32,
    F64,
}

impl FerVarType {
    /// The code by which the host identifies the element type.
    pub open spec fn spec_type_id(self) -> u32 {
        match self {
            FerVarType::U8 => 0,
            FerVarType::I8 => 1,
            FerVarType::U16 => 2,
            FerVarType::I16 => 3,
            FerVarType::U32 => 4,
            FerVarType::I32 => 5,
            FerVarType::U64 => 6,
            FerVarType::I64 => 7,
            FerVarType::F32 => 8,
            FerVarType::F64 => 9,
        }
    }

    /// The element type that a host code stands for, if any.
    pub open spec fn spec_from_type_id(id: u32) -> Option<FerVarType> {
        if id == 0 {
            Some(FerVarType::U8)
        } else if id == 1 {
            Some(FerVarType::I8)
        } else if id == 2 {
            Some(FerVarType::U16)
        } else if id == 3 {
            Some(FerVarType::I16)
        } else if id == 4 {
            Some(FerVarType::U32)
        } else if id == 5 {
            Some(FerVarType::I32)
        } else if id == 6 {
            Some(FerVarType::U64)
        } else if id == 7 {
            Some(FerVarType::I64)
        } else if id == 8 {
            Some(FerVarType::F32)
        } else if id == 9 {
            Some(FerVarType::F64)
        } else {
            None
        }
    }

    #[verifier::when_used_as_spec(spec_type_id)]
    pub fn type_id(self) -> (id: u32)
        ensures
            id == self.spec_type_id(),
            id <= 9,
    {
        match self {
            FerVarType::U8 => 0,
            FerVarType::I8 => 1,
            FerVarType::U16 => 2,
            FerVarType::I16 => 3,
            FerVarType::U32 => 4,
            FerVarType::I32 => 5,
            FerVarType::U64 => 6,
            FerVarType::I64 => 7,
            FerVarType::F32 => 8,
            FerVarType::F64 => 9,
        }
    }

    /// Decodes a host type code; codes above 9 name no type.
    pub fn from_type_id(id: u32) -> (t: Option<FerVarType>)
        ensures
            t == Self::spec_from_type_id(id),
            t.is_some() <==> id <= 9,
            t matches Some(ty) ==> ty.spec_type_id() == id,
    {
        if id == 0 {
            Some(FerVarType::U8)
        } else if id == 1 {
            Some(FerVarType::I8)
        } else if id == 2 {
            Some(FerVarType::U16)
        } else if id == 3 {
            Some(FerVarType::I16)
        } else if id == 4 {
            Some(FerVarType::U32)
        } else if id == 5 {
            Some(FerVarType::I32)
        } else if id == 6 {
            Some(FerVarType::U64)
        } else if id == 7 {
            Some(FerVarType::I64)
        } else if id == 8 {
            Some(FerVarType::F32)
        } else if id == 9 {
            Some(FerVarType::F64)
        } else {
            None
        }
    }
}

/// Every element type is found again from its code.
pub proof fn lemma_type_id_round_trip(t: FerVarType)
    ensures
        FerVarType::spec_from_type_id(t.spec_type_id()) == Some(t),
{
}

/// A set of permissions drawn from read, write and request.
#[derive(Clone, Copy, Debug, PartialEq, Eq, Structural)]
pub struct FerVarPerm {
    pub read: bool,
    pub write: bool,
    pub request: bool,
}

impl FerVarPerm {
    /// The permission bits as the host encodes them.
    pub open spec fn spec_bits(self) -> u32 {
        ((if self.read { 1int } else { 0int }) + (if self.write { 2int } else { 0int }) + (if self.request { 4int } else { 0int })) as u32
    }

    /// The set that a word of at most three bits encodes.
    pub open spec fn spec_from_bits(bits: u32) -> Option<FerVarPerm> {
        if bits < 8 {
            Some(FerVarPerm { read: bits % 2 == 1, write: (bits / 2) % 2 == 1, request: bits / 4 == 1 })
        } else {
            None
        }
    }

    /// Whether every permission of `other` is in this set.
    pub open spec fn spec_contains(self, other: FerVarPerm) -> bool {
        &&& other.read ==> self.read
        &&& other.write ==> self.write
        &&& other.request ==> self.request
    }

    pub fn empty() -> (p: FerVarPerm)
        ensures
            p == (FerVarPerm { read: false, write: false, request: false }),
    {
        FerVarPerm { read: false, write: false, request: false }
    }

    pub fn all() -> (p: FerVarPerm)
        ensures
            p == (FerVarPerm { read: true, write: true, request: true }),
    {
        FerVarPerm { read: true, write: true, request: true }
    }

    #[verifier::when_used_as_spec(spec_bits)]
    pub fn bits(self) -> (b: u32)
        ensures
            b == self.spec_bits(),
            b < 8,
    {
        let r: u32 = if self.read { PERM_READ } else { 0 };
        let w: u32 = if self.write { PERM_WRITE } else { 0 };
        let q: u32 = if self.request { PERM_REQUEST } else { 0 };
        r + w + q
    }

    /// Decodes permission bits; a word with a bit outside the three known
    /// ones encodes no set.
    pub fn from_bits(bits: u32) -> (p: Option<FerVarPerm>)
        ensures
            p == Self::spec_from_bits(bits),
            p.is_some() <==> bits < 8,
            p matches Some(perm) ==> perm.spec_bits() == bits,
    {
        if bits < 8 {
            Some(FerVarPerm { read: bits % 2 == 1, write: (bits / 2) % 2 == 1, request: bits / 4 == 1 })
        } else {
            None
        }
    }

    #[verifier::when_used_as_spec(spec_contains)]
    pub fn contains(self, other: FerVarPerm) -> (r: bool)
        ensures
            r == self.spec_contains(other),
    {
        (!other.read || self.read) && (!other.write || self.write) && (!other.request
            || self.request)
    }

    pub fn union(self, other: FerVarPerm) -> (p: FerVarPerm)
        ensures
            p.read == (self.read || other.read),
            p.write == (self.write || other.write),
            p.request == (self.request || other.request),
    {
        FerVarPerm {
            read: self.read || other.read,
            write: self.write || other.write,
            request: self.request || other.request,
        }
    }
}

/// Every permission set is found again from its bits.
pub proof fn lemma_perm_bits_round_trip(p: FerVarPerm)
    ensures
        FerVarPerm::spec_from_bits(p.spec_bits()) == Some(p),
{
}

/// What the host declares of a variable: permissions, element type and the
/// greatest element count (zero for a scalar).
#[derive(Clone, Copy, Debug, PartialEq, Eq, Structural)]
pub struct FerVarInfo {
    pub perm: FerVarPerm,
    pub type_: FerVarType,
    pub max_len: usize,
}

impl FerVarInfo {
    /// Number of elements that the host's storage has room for.
    pub open spec fn spec_cells(self) -> nat {
        if self.max_len == 0 {
            1
        } else {
            self.max_len as nat
        }
    }

    pub open spec fn is_scalar(self) -> bool {
        self.max_len == 0
    }
}

/// Outcome that accompanies a commit.
#[derive(Clone, Copy, Debug, PartialEq, Eq, Structural)]
pub enum FerVarStatus {
    Success,
    Failure,
}

impl FerVarStatus {
    pub open spec fn spec_code(self) -> u32 {
        match self {
            FerVarStatus::Success => STATUS_OK,
            FerVarStatus::Failure => STATUS_ERROR,
        }
    }

    #[verifier::when_used_as_spec(spec_code)]
    pub fn code(self) -> (c: u32)
        ensures
            c == self.spec_code(),
    {
        match self {
            FerVarStatus::Success => STATUS_OK,
            FerVarStatus::Failure => STATUS_ERROR,
        }
    }
}

/// The value cell of a variable: element storage and, for an array, the
/// number of elements in use. An element is held by its bit pattern,
/// zero-extended to 64 bits.
#[derive(Debug)]
pub struct FerVarValue {
    pub len: usize,
    pub data: Vec<u64>,
}

impl FerVarValue {
    /// The cell has the room that `info` declares and its length is within it.
    pub open spec fn fits(self, info: FerVarInfo) -> bool {
        &&& self.data@.len() == info.spec_cells()
        &&& self.len <= info.max_len
    }

    /// The elements in use.
    pub open spec fn spec_elements(self) -> Seq<u64> {
        self.data@.take(self.len as int)
    }

    /// A cell for `info` with every element zero and, for an array, length
    /// zero.
    pub fn zeroed(info: FerVarInfo) -> (v: FerVarValue)
        ensures
            v.fits(info),
            v.len == 0,
            forall|i: int| 0 <= i < v.data@.len() ==> v.data@[i] == 0,
    {
        let cells: usize = if info.max_len == 0 { 1 } else { info.max_len };
        let mut data: Vec<u64> = Vec::new();
        let mut i: usize = 0;
        while i < cells
            invariant
                i <= cells,
                data@.len() == i,
                forall|j: int| 0 <= j < data@.len() ==> data@[j] == 0,
            decreases cells - i,
        {
            data.push(0);
            i += 1;
        }
        FerVarValue { len: 0, data }
    }
}

/// What the host was handed with one commit.
#[derive(Debug)]
pub struct FerVarCommit {
    pub status: FerVarStatus,
    pub message: String,
}

/// The host's record of one variable: its name and metadata, the value cell,
/// the per-variable mutex, whether processing was asked for and not yet
/// begun, and the commits received so far.
#[derive(Debug)]
pub struct FerVar {
    pub name: String,
    pub info: FerVarInfo,
    pub value: FerVarValue,
    pub locked: bool,
    pub requested: bool,
    pub commits: Vec<FerVarCommit>,
}

impl FerVar {
    /// The commits received, each as its status and message.
    pub open spec fn spec_commits(self) -> Seq<(FerVarStatus, Seq<char>)> {
        Seq::new(self.commits@.len(), |i: int| (self.commits@[i].status, self.commits@[i].message@))
    }

    /// The value cell fits the declared metadata.
    pub open spec fn wf(self) -> bool {
        self.value.fits(self.info)
    }

    /// A fresh record as the host declares it: zeroed storage, unlocked,
    /// nothing requested, nothing committed.
    pub fn new(name: &str, info: FerVarInfo) -> (var: FerVar)
        ensures
            var.wf(),
            var.name@ == name@,
            var.info == info,
            var.value.len == 0,
            forall|i: int| 0 <= i < var.value.data@.len() ==> var.value.data@[i] == 0,
            !var.locked,
            !var.requested,
            var.commits@.len() == 0,
    {
        FerVar {
            name: String::from_str(name),
            info,
            value: FerVarValue::zeroed(info),
            locked: false,
            requested: false,
            commits: Vec::new(),
        }
    }
}

} // verus!
