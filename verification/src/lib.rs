//! Handoff between a control host that owns process variables and the user
//! tasks that read and write them, as a sequential model with contracts.

pub mod atomic;
pub mod downcast;
pub mod import;
pub mod protocol;
pub mod registry;
pub mod typed;
pub mod variable;

pub use downcast::Downcast;
pub use import::FerVarInfo as Info;
pub use registry::Registry;
pub use typed::TypedVariable;
pub use variable::Variable;

use vstd::prelude::*;

verus! {

/// What the program's entry point is handed: the variables that the host
/// has declared.
pub struct Context {
    pub registry: Registry,
}

} // verus!
