use vstd::prelude::*;

verus! {

/// The ways an explicit operation on references can fail.
///
/// A collected referent is not among them: weak upgrades report it as an
/// empty result.
#[derive(Clone, Copy, Debug, PartialEq, Eq, Structural)]
pub enum Error {
    /// The runtime has an exception pending.
    JavaException,
    /// A frame was asked to hold more local references than the runtime allows.
    ResourceExhausted,
    /// A frame capacity below zero.
    InvalidCapacity,
    /// The current thread could not be bound to the runtime.
    AttachFailed,
}

pub type Result<T> = core::result::Result<T, Error>;

} // verus!
