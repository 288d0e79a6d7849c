use vstd::prelude::*;

verus! {

/// A single escrow record: funds deposited by `creator`, waiting to be
/// claimed exactly once or cancelled by the creator.
pub struct DropRecord {
    /// Unique, monotonically assigned identifier; immutable after creation.
    pub id: u64,
    /// Identity that funded the drop; immutable.
    pub creator: u64,
    /// Deposited quantity; strictly positive for the record's whole life.
    pub amount: i128,
    /// Caller-supplied text payload, opaque to the engine.
    pub message: String,
    /// Whether the drop has been claimed; once `true`, never reverts.
    pub claimed: bool,
    /// The identity that claimed the drop; present exactly when `claimed`.
    pub claimer: Option<u64>,
}

/// Mathematical image of a [`DropRecord`]: the message is abstracted to its
/// character sequence.
#[verifier::ext_equal]
pub struct DropData {
    pub id: u64,
    pub creator: u64,
    pub amount: i128,
    pub message: Seq<char>,
    pub claimed: bool,
    pub claimer: Option<u64>,
}

impl View for DropRecord {
    type V = DropData;

    open spec fn view(&self) -> DropData {
        DropData {
            id: self.id,
            creator: self.creator,
            amount: self.amount,
            message: self.message@,
            claimed: self.claimed,
            claimer: self.claimer,
        }
    }
}

/// Well-formedness of the record stored in slot `slot` of the record tier:
/// its id is the slot's id, the deposit is positive, and the claimer is
/// present exactly when the drop is claimed.
pub open spec fn slot_ok(slot: Option<DropData>, i: int) -> bool {
    slot matches Some(d) ==> {
        &&& d.id == i + 1
        &&& d.amount > 0
        &&& (d.claimed <==> d.claimer is Some)
    }
}

} // verus!
