//! Projection of a variable onto a typed view.

use crate::import::FerVarInfo;
use crate::typed::{
    check_view, may_read, may_request, may_write, view_accepts, Type, TypedVariable, Value,
};
use crate::variable::Variable;
use vstd::prelude::*;

verus! {

/// Projection onto the view `V`, which either takes the variable up or
/// refuses it.
pub trait Downcast<V>: Sized {
    /// The view of this variable as a `V`, if `V` accepts it.
    spec fn spec_downcast(self) -> Option<V>;

    fn downcast(self) -> (r: Option<V>)
        ensures
            r == self.spec_downcast(),
    ;
}

impl<T: Type, const PERM: u32> Downcast<TypedVariable<T, PERM>> for Variable {
    open spec fn spec_downcast(self) -> Option<TypedVariable<T, PERM>> {
        if view_accepts::<T>(self@.info, PERM) {
            Some(TypedVariable::<T, PERM>::spec_new(self))
        } else {
            None
        }
    }

    /// A scalar view takes a variable of its element type that holds one
    /// element and grants the permissions of the view.
    fn downcast(self) -> (r: Option<TypedVariable<T, PERM>>) {
        if check_view::<T>(self.info(), PERM) {
            Some(TypedVariable::new_unchecked(self))
        } else {
            None
        }
    }
}

impl<T: Type, const PERM: u32> Downcast<TypedVariable<[T], PERM>> for Variable {
    open spec fn spec_downcast(self) -> Option<TypedVariable<[T], PERM>> {
        if view_accepts::<[T]>(self@.info, PERM) {
            Some(TypedVariable::<[T], PERM>::spec_new(self))
        } else {
            None
        }
    }

    /// An array view takes a variable of its element type that is declared
    /// as an array and grants the permissions of the view.
    fn downcast(self) -> (r: Option<TypedVariable<[T], PERM>>) {
        if check_view::<[T]>(self.info(), PERM) {
            Some(TypedVariable::new_unchecked(self))
        } else {
            None
        }
    }
}

/// A view is refused to a variable that lacks one of the permissions that
/// the view asks for: a variable declared read-only gives no view that
/// writes, and so on.
pub proof fn lemma_view_needs_its_permissions<V: Value + ?Sized>(info: FerVarInfo, perm: u32)
    requires
        (may_read(perm) && !info.perm.read) || (may_write(perm) && !info.perm.write) || (
        may_request(perm) && !info.perm.request),
    ensures
        !view_accepts::<V>(info, perm),
{
}

/// A scalar view is refused to an array and an array view to a scalar, and
/// either to a variable of another element type.
pub proof fn lemma_view_needs_its_shape<V: Value + ?Sized>(info: FerVarInfo, perm: u32)
    requires
        info.type_ != V::spec_elem() || (info.max_len > 0) != V::spec_is_array(),
    ensures
        !view_accepts::<V>(info, perm),
{
}

} // verus!
