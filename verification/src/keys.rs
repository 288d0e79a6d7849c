use vstd::prelude::*;

verus! {

/// Addressing schema of the durable state store.
///
/// The instance tier holds the two singleton entries (`Token`, `DropCount`);
/// the record tier holds one entry per live drop, keyed by `Drop(id)`.  The
/// variants namespace the store so the two tiers, and distinct drops within
/// the record tier, can never collide.
#[derive(Clone, Copy, Debug, PartialEq, Eq, Structural)]
pub enum DataKey {
    /// Record-tier key of the drop with the given id.
    Drop(u64),
    /// Instance-tier key of the total number of drops ever created.
    DropCount,
    /// Instance-tier key of the configured token identity.
    Token,
}

/// The key schema is collision-free: two record keys coincide only for the
/// same id, and no record key ever equals an instance-tier key.
pub proof fn lemma_keys_collision_free(i: u64, j: u64)
    ensures
        (DataKey::Drop(i) == DataKey::Drop(j)) <==> i == j,
        DataKey::Drop(i) != DataKey::DropCount,
        DataKey::Drop(i) != DataKey::Token,
        DataKey::DropCount != DataKey::Token,
{
}

} // verus!
