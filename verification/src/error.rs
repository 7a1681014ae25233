use vstd::prelude::*;

verus! {

/// Why an operation was refused. A refused operation changes nothing.
#[derive(Debug, Clone, Copy, PartialEq, Eq, Structural)]
pub enum Error {
    /// The operation needs a profile and there is none for that user.
    NotRegistered,
    /// The operation is not valid in the state the user is in.
    InvalidStateTransition,
    /// The acting user is banned.
    Banned,
    /// The store could not carry the operation out: a uniqueness rule would
    /// be broken, a referenced profile is missing, or a counter would leave
    /// its range.
    StorageFailure,
}

} // verus!
