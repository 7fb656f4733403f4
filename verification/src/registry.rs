//! The variables that the host has declared, by name, and their handing
//! over to user code as typed views.

use crate::downcast::Downcast;
use crate::import::FerVarInfo;
use crate::variable::Variable;
use vstd::prelude::*;
use vstd::string::StringExecFns;
use vstd::utf8::{encode_utf8, is_ascii_chars, is_ascii_chars_encode_utf8};

verus! {

/// ASCII punctuation other than the underscore: the bytes that may stand
/// before a name's last part.
pub open spec fn is_separator(byte: u8) -> bool {
    &&& (33 <= byte <= 47 || 58 <= byte <= 64 || 91 <= byte <= 96 || 123 <= byte <= 126)
    &&& byte != 95
}

/// `text` ends with the bytes of `suffix`.
pub open spec fn ends_with(text: Seq<u8>, suffix: Seq<u8>) -> bool {
    suffix.len() <= text.len() && text.skip(text.len() - suffix.len()) == suffix
}

/// `suffix` is the whole of `text`, or ends it behind a separator.
pub open spec fn suffix_matches(text: Seq<u8>, suffix: Seq<u8>) -> bool {
    &&& ends_with(text, suffix)
    &&& (text.len() == suffix.len() || is_separator(text[text.len() - suffix.len() - 1]))
}

/// [`suffix_matches`] on the UTF-8 bytes of two strings.
pub open spec fn is_suffix_of(text: Seq<char>, suffix: Seq<char>) -> bool {
    suffix_matches(encode_utf8(text), encode_utf8(suffix))
}

/// On names and suffixes in ASCII the rule can be read character by
/// character.
pub proof fn lemma_is_suffix_ascii(text: Seq<char>, suffix: Seq<char>)
    requires
        is_ascii_chars(text),
        is_ascii_chars(suffix),
    ensures
        is_suffix_of(text, suffix) <==> (suffix.len() <= text.len() && text.skip(
            text.len() - suffix.len(),
        ) == suffix && (text.len() == suffix.len() || is_separator(
            text[text.len() - suffix.len() - 1] as u8,
        ))),
{
    is_ascii_chars_encode_utf8(text);
    is_ascii_chars_encode_utf8(suffix);
    let t = encode_utf8(text);
    let s = encode_utf8(suffix);
    if suffix.len() <= text.len() {
        let start = text.len() - suffix.len();
        if t.skip(start) == s {
            assert forall|i: int| 0 <= i < suffix.len() implies text.skip(start)[i] == suffix[i] by {
                assert(t.skip(start)[i] == s[i]);
                assert(t[start + i] == text[start + i] as u8);
                assert(s[i] == suffix[i] as u8);
            }
            assert(text.skip(start) =~= suffix);
        }
        if text.skip(start) == suffix {
            assert forall|i: int| 0 <= i < s.len() implies t.skip(start)[i] == s[i] by {
                assert(text.skip(start)[i] == suffix[i]);
                assert(t[start + i] == text[start + i] as u8);
                assert(s[i] == suffix[i] as u8);
            }
            assert(t.skip(start) =~= s);
        }
        if start > 0 {
            assert(t[start - 1] == text[start - 1] as u8);
        }
    }
}

/// Executable form of [`is_separator`].
pub fn check_separator(byte: u8) -> (r: bool)
    ensures
        r == is_separator(byte),
{
    ((33 <= byte && byte <= 47) || (58 <= byte && byte <= 64) || (91 <= byte && byte <= 96) || (123
        <= byte && byte <= 126)) && byte != 95
}

/// Whether `suffix` names the last part of `text`: it is all of `text`, or
/// it ends `text` and the byte before it is ASCII punctuation other than
/// the underscore.
pub fn is_suffix(text: &str, suffix: &str) -> (r: bool)
    ensures
        r == is_suffix_of(text@, suffix@),
{
    let t = text.as_bytes();
    let s = suffix.as_bytes();
    proof {
        assert(t@ == encode_utf8(text@));
        assert(s@ == encode_utf8(suffix@));
    }
    let tn: usize = t.len();
    let sn: usize = s.len();
    if sn > tn {
        return false;
    }
    let start: usize = tn - sn;
    let mut i: usize = 0;
    while i < sn
        invariant
            i <= sn,
            sn == s@.len(),
            tn == t@.len(),
            t@ == encode_utf8(text@),
            s@ == encode_utf8(suffix@),
            start + sn == tn,
            forall|j: int| 0 <= j < i ==> t@[start + j] == s@[j],
        decreases sn - i,
    {
        if t[start + i] != s[i] {
            proof {
                assert(t@.skip(start as int)[i as int] != s@[i as int]);
            }
            return false;
        }
        i += 1;
    }
    proof {
        assert(t@.skip(start as int) =~= s@);
    }
    if start == 0 {
        return true;
    }
    check_separator(t[start - 1])
}

/// Why a variable could not be handed out.
#[derive(Clone, Copy, Debug, PartialEq, Eq, Structural)]
pub enum GetDowncastErrorKind {
    /// The registry holds no variable of that name.
    NotFound,
    /// The variable is not of the type, shape or permissions asked for; with
    /// what the host declares of it.
    WrongType(FerVarInfo),
}

/// A variable could not be handed out.
#[derive(Debug)]
pub struct GetDowncastError {
    pub name: String,
    pub kind: GetDowncastErrorKind,
}

impl GetDowncastError {
    /// The error as a line of text.
    pub fn message(&self) -> (text: String)
        ensures
            text@ == "PV '"@ + self.name@ + "': "@ + (match self.kind {
                GetDowncastErrorKind::NotFound => "Not found"@,
                GetDowncastErrorKind::WrongType(_) => "Wrong type"@,
            }),
    {
        let head = String::from_str("PV '").concat(self.name.as_str()).concat("': ");
        match self.kind {
            GetDowncastErrorKind::NotFound => head.concat("Not found"),
            GetDowncastErrorKind::WrongType(_) => head.concat("Wrong type"),
        }
    }
}

/// Variables that the host declares and user code never took, by name.
#[derive(Debug)]
pub struct CheckEmptyError(pub Vec<String>);

/// What taking the variable `var` as a `V` gives.
pub open spec fn downcast_outcome<V>(var: Variable, res: Result<V, GetDowncastError>) -> bool where
    Variable: Downcast<V>,
 {
    match var.spec_downcast() {
        Some(typed) => res == Ok::<V, GetDowncastError>(typed),
        None => res matches Err(e) && e.name@ == var@.name && e.kind
            == GetDowncastErrorKind::WrongType(var@.info),
    }
}

/// The variables of a program, each under its name, in the order in which
/// the host declared them.
pub struct Registry {
    vars: Vec<Variable>,
}

impl Registry {
    /// The variables held, in the order of their declaration.
    pub closed spec fn entries(&self) -> Seq<Variable> {
        self.vars@
    }

    /// A variable of that name is held.
    pub open spec fn has(&self, name: Seq<char>) -> bool {
        exists|i: int| 0 <= i < self.entries().len() && (#[trigger] self.entries()[i])@.name == name
    }

    /// The place of the variable of that name.
    pub open spec fn index_of(&self, name: Seq<char>) -> int {
        choose|i: int| 0 <= i < self.entries().len() && (#[trigger] self.entries()[i])@.name == name
    }

    /// Some variable's name has that suffix.
    pub open spec fn has_suffix(&self, suffix: Seq<char>) -> bool {
        exists|i: int|
            0 <= i < self.entries().len() && is_suffix_of(
                (#[trigger] self.entries()[i])@.name,
                suffix,
            )
    }

    /// The place of the first variable whose name has that suffix.
    pub open spec fn index_of_suffix(&self, suffix: Seq<char>) -> int {
        choose|i: int|
            0 <= i < self.entries().len() && is_suffix_of(
                (#[trigger] self.entries()[i])@.name,
                suffix,
            ) && forall|j: int| 0 <= j < i ==> !is_suffix_of((#[trigger] self.entries()[j])@.name, suffix)
    }

    /// Every variable is well formed and no name occurs twice.
    pub open spec fn wf(&self) -> bool {
        &&& forall|i: int| 0 <= i < self.entries().len() ==> (#[trigger] self.entries()[i]).wf()
        &&& forall|i: int, j: int|
            0 <= i < j < self.entries().len() ==> (#[trigger] self.entries()[i])@.name != (
            #[trigger] self.entries()[j])@.name
    }

    /// A registry without variables.
    pub fn new() -> (reg: Registry)
        ensures
            reg.entries().len() == 0,
            reg.wf(),
    {
        Registry { vars: Vec::new() }
    }

    pub fn len(&self) -> (n: usize)
        ensures
            n == self.entries().len(),
    {
        self.vars.len()
    }

    pub fn is_empty(&self) -> (r: bool)
        ensures
            r == (self.entries().len() == 0),
    {
        self.vars.len() == 0
    }

    /// The place of the variable of that name, if one is held.
    fn find(&self, name: &str) -> (found: Option<usize>)
        requires
            self.wf(),
        ensures
            found is Some == self.has(name@),
            found matches Some(i) ==> i == self.index_of(name@) && i < self.entries().len()
                && self.entries()[i as int]@.name == name@,
    {
        let mut i: usize = 0;
        while i < self.vars.len()
            invariant
                self.wf(),
                i <= self.entries().len(),
                self.entries() == self.vars@,
                forall|j: int| 0 <= j < i ==> (#[trigger] self.entries()[j])@.name != name@,
            decreases self.entries().len() - i,
        {
            if self.vars[i].has_name(name) {
                proof {
                    let k = self.index_of(name@);
                    assert(self.entries()[i as int]@.name == name@);
                    assert(k == i) by {
                        if k < i {
                            assert(self.entries()[k]@.name != self.entries()[i as int]@.name);
                        } else if k > i {
                            assert(self.entries()[i as int]@.name != self.entries()[k]@.name);
                        }
                    }
                }
                return Some(i);
            }
            i += 1;
        }
        None
    }

    /// The place of the first variable whose name has that suffix, if there
    /// is one.
    fn find_suffix(&self, suffix: &str) -> (found: Option<usize>)
        ensures
            found is Some == self.has_suffix(suffix@),
            found matches Some(i) ==> i == self.index_of_suffix(suffix@) && i
                < self.entries().len() && is_suffix_of(self.entries()[i as int]@.name, suffix@),
    {
        let mut i: usize = 0;
        while i < self.vars.len()
            invariant
                i <= self.entries().len(),
                self.entries() == self.vars@,
                forall|j: int|
                    0 <= j < i ==> !is_suffix_of((#[trigger] self.entries()[j])@.name, suffix@),
            decreases self.entries().len() - i,
        {
            if is_suffix(self.vars[i].name(), suffix) {
                proof {
                    let w = i as int;
                    assert(0 <= w < self.entries().len() && is_suffix_of(
                        (#[trigger] self.entries()[w])@.name,
                        suffix@,
                    ) && forall|j: int|
                        0 <= j < w ==> !is_suffix_of((#[trigger] self.entries()[j])@.name, suffix@));
                    let k = self.index_of_suffix(suffix@);
                    assert(k == w) by {
                        if k < w {
                            assert(!is_suffix_of(self.entries()[k]@.name, suffix@));
                        } else if k > w {
                            assert(!is_suffix_of(self.entries()[w]@.name, suffix@));
                        }
                    }
                }
                return Some(i);
            }
            i += 1;
        }
        None
    }

    /// Whether a variable of that name is held.
    pub fn contains(&self, name: &str) -> (r: bool)
        requires
            self.wf(),
        ensures
            r == self.has(name@),
    {
        self.find(name).is_some()
    }

    /// Takes up a variable that the host declares. No variable of its name
    /// may be held already.
    pub fn insert(&mut self, var: Variable)
        requires
            old(self).wf(),
            var.wf(),
            !old(self).has(var@.name),
        ensures
            final(self).entries() == old(self).entries().push(var),
            final(self).has(var@.name),
            final(self).wf(),
    {
        self.vars.push(var);
        proof {
            assert(self.entries()[self.entries().len() - 1] == var);
            assert forall|i: int, j: int| 0 <= i < j < self.entries().len() implies (
            #[trigger] self.entries()[i])@.name != (#[trigger] self.entries()[j])@.name by {
                if j == self.entries().len() - 1 {
                    assert(old(self).entries()[i]@.name != var@.name);
                } else {
                    assert(old(self).entries()[i]@.name != old(self).entries()[j]@.name);
                }
            }
        }
    }

    /// Hands the whole registry over and leaves an empty one behind.
    pub fn take(&mut self) -> (taken: Registry)
        ensures
            taken.entries() == old(self).entries(),
            final(self).entries().len() == 0,
            final(self).wf(),
            old(self).wf() ==> taken.wf(),
    {
        let mut taken = Registry::new();
        std::mem::swap(self, &mut taken);
        taken
    }

    /// Takes the variable at place `i` out; those behind it move up.
    fn remove_at(&mut self, i: usize) -> (var: Variable)
        requires
            old(self).wf(),
            i < old(self).entries().len(),
        ensures
            final(self).wf(),
            final(self).entries() == old(self).entries().remove(i as int),
            var == old(self).entries()[i as int],
            var.wf(),
    {
        let var = self.vars.remove(i);
        proof {
            let before = old(self).entries();
            let after = self.entries();
            assert forall|a: int| 0 <= a < after.len() implies (#[trigger] after[a]).wf() by {
                if a < i {
                    assert(after[a] == before[a]);
                } else {
                    assert(after[a] == before[a + 1]);
                }
            }
            assert forall|a: int, b: int| 0 <= a < b < after.len() implies (#[trigger] after[a])@.name
                != (#[trigger] after[b])@.name by {
                let a0 = if a < i { a } else { a + 1 };
                let b0 = if b < i { b } else { b + 1 };
                assert(after[a] == before[a0]);
                assert(after[b] == before[b0]);
                assert(before[a0]@.name != before[b0]@.name);
            }
        }
        var
    }

    /// What taking `var` as a `V` gives: the view, or the error `WrongType`
    /// with what the host declares of the variable.
    fn project<V>(var: Variable) -> (res: Result<V, GetDowncastError>) where Variable: Downcast<V>
        ensures
            downcast_outcome(var, res),
    {
        let info = var.info();
        let name = String::from_str(var.name());
        match var.downcast() {
            Some(typed) => Ok(typed),
            None => Err(GetDowncastError { name, kind: GetDowncastErrorKind::WrongType(info) }),
        }
    }

    /// Takes the variable of that name out, if one is held.
    pub fn remove(&mut self, name: &str) -> (var: Option<Variable>)
        requires
            old(self).wf(),
        ensures
            final(self).wf(),
            !old(self).has(name@) ==> var is None && final(self).entries() == old(self).entries(),
            old(self).has(name@) ==> var == Some(old(self).entries()[old(self).index_of(name@)])
                && final(self).entries() == old(self).entries().remove(old(self).index_of(name@)),
            var matches Some(v) ==> v.wf() && v@.name == name@,
    {
        match self.find(name) {
            Some(i) => Some(self.remove_at(i)),
            None => None,
        }
    }

    /// Takes the variable of that name out and hands it over as a `V`. If no
    /// such variable is held, nothing changes and the error is `NotFound`.
    /// If `V` does not accept the variable, the variable is gone all the
    /// same and the error is `WrongType` with what the host declares of it.
    pub fn remove_downcast<V>(&mut self, name: &str) -> (res: Result<V, GetDowncastError>) where
        Variable: Downcast<V>,

        requires
            old(self).wf(),
        ensures
            final(self).wf(),
            (res matches Err(e) && e.kind == GetDowncastErrorKind::NotFound) <==> !old(self).has(
                name@,
            ),
            !old(self).has(name@) ==> final(self).entries() == old(self).entries() && (
            res matches Err(e) && e.name@ == name@ && e.kind == GetDowncastErrorKind::NotFound),
            old(self).has(name@) ==> final(self).entries() == old(self).entries().remove(
                old(self).index_of(name@),
            ) && downcast_outcome(old(self).entries()[old(self).index_of(name@)], res),
    {
        match self.find(name) {
            Some(i) => {
                let var = self.remove_at(i);
                Self::project(var)
            },
            None => Err(
                GetDowncastError {
                    name: String::from_str(name),
                    kind: GetDowncastErrorKind::NotFound,
                },
            ),
        }
    }

    /// As [`Registry::remove_downcast`], for the first variable whose name
    /// has `suffix` as its last part. If there is none, nothing changes and
    /// the error is `NotFound` under the name `*` followed by the suffix.
    pub fn remove_downcast_suffix<V>(&mut self, suffix: &str) -> (res: Result<
        V,
        GetDowncastError,
    >) where Variable: Downcast<V>
        requires
            old(self).wf(),
        ensures
            final(self).wf(),
            (res matches Err(e) && e.kind == GetDowncastErrorKind::NotFound) <==> !old(
                self,
            ).has_suffix(suffix@),
            !old(self).has_suffix(suffix@) ==> final(self).entries() == old(self).entries() && (
            res matches Err(e) && e.name@ == "*"@ + suffix@ && e.kind
                == GetDowncastErrorKind::NotFound),
            old(self).has_suffix(suffix@) ==> final(self).entries() == old(self).entries().remove(
                old(self).index_of_suffix(suffix@),
            ) && downcast_outcome(old(self).entries()[old(self).index_of_suffix(suffix@)], res),
    {
        match self.find_suffix(suffix) {
            Some(i) => {
                let var = self.remove_at(i);
                Self::project(var)
            },
            None => Err(
                GetDowncastError {
                    name: String::from_str("*").concat(suffix),
                    kind: GetDowncastErrorKind::NotFound,
                },
            ),
        }
    }

    /// The names of the variables held, in the order of their declaration.
    pub fn names(&self) -> (names: Vec<String>)
        ensures
            names@.len() == self.entries().len(),
            forall|i: int| 0 <= i < names@.len() ==> (#[trigger] names@[i])@ == self.entries()[i]@.name,
    {
        let mut names: Vec<String> = Vec::new();
        let mut i: usize = 0;
        while i < self.vars.len()
            invariant
                i <= self.entries().len(),
                self.entries() == self.vars@,
                names@.len() == i,
                forall|j: int| 0 <= j < i ==> (#[trigger] names@[j])@ == self.entries()[j]@.name,
            decreases self.entries().len() - i,
        {
            names.push(String::from_str(self.vars[i].name()));
            i += 1;
        }
        names
    }

    /// Succeeds if user code has taken every variable; else the error lists
    /// the names of those left, in the order of their declaration.
    pub fn check_empty(&self) -> (res: Result<(), CheckEmptyError>)
        ensures
            res is Ok == (self.entries().len() == 0),
            res matches Err(e) ==> e.0@.len() == self.entries().len() && forall|i: int|
                0 <= i < e.0@.len() ==> (#[trigger] e.0@[i])@ == self.entries()[i]@.name,
    {
        if !self.is_empty() {
            Err(CheckEmptyError(self.names()))
        } else {
            Ok(())
        }
    }
}

} // verus!
