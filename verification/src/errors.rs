use vstd::prelude::*;

verus! {

/// Every way an escrow operation can fail.
///
/// Each operation checks its preconditions in a fixed order and surfaces the
/// first violated one as its result; a failed operation never mutates any
/// state.
#[derive(Clone, Copy, Debug, PartialEq, Eq, Structural)]
pub enum Error {
    /// `initialize` was called on an instance that already holds a token.
    AlreadyInitialized,
    /// `create_drop` was called before `initialize`.
    NotInitialized,
    /// The caller's authorization proof for the claimed identity is missing
    /// or invalid.
    Unauthorized,
    /// The deposit amount is not strictly positive.
    InvalidAmount,
    /// No live drop is stored under the given id.
    NotFound,
    /// The drop was already claimed (claims and cancellations are foreclosed
    /// once a drop is claimed).
    AlreadyClaimed,
    /// `cancel_drop` was invoked by an identity other than the stored
    /// creator.
    NotCreator,
    /// The ledger rejected the requested balance movement.
    TransferFailed,
}

} // verus!
