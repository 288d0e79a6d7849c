use vstd::prelude::*;

use crate::engine::ContractView;
use crate::engine::cancel_transition;
use crate::engine::claim_transition;
use crate::engine::create_transition;
use crate::engine::dead;
use crate::engine::init_transition;
use crate::engine::live;
use crate::engine::record_of;
use crate::errors::Error;
use crate::ledger::bal;
use crate::ledger::ledger_ok;
use crate::ledger::lemma_total_pair_bound;
use crate::record::DropData;

verus! {

/// What one record-tier slot contributes to the funds held in custody: the
/// deposit of an unclaimed drop, and nothing otherwise.
pub open spec fn slot_amount(slot: Option<DropData>) -> int {
    match slot {
        Some(d) => if !d.claimed {
            d.amount as int
        } else {
            0
        },
        None => 0,
    }
}

/// Sum of all unclaimed deposits currently stored.
pub open spec fn unclaimed_total(drops: Seq<Option<DropData>>) -> int
    decreases drops.len(),
{
    if drops.len() == 0 {
        0
    } else {
        unclaimed_total(drops.drop_last()) + slot_amount(drops.last())
    }
}

/// Appending a slot adds its contribution.
pub proof fn lemma_unclaimed_push(drops: Seq<Option<DropData>>, slot: Option<DropData>)
    ensures
        unclaimed_total(drops.push(slot)) == unclaimed_total(drops) + slot_amount(slot),
{
    assert(drops.push(slot).drop_last() =~= drops);
}

/// Overwriting a slot shifts the sum by the difference of contributions.
pub proof fn lemma_unclaimed_update(drops: Seq<Option<DropData>>, i: int, slot: Option<DropData>)
    requires
        0 <= i < drops.len(),
    ensures
        unclaimed_total(drops.update(i, slot)) == unclaimed_total(drops) - slot_amount(drops[i])
            + slot_amount(slot),
    decreases drops.len(),
{
    if i == drops.len() - 1 {
        assert(drops.update(i, slot).drop_last() =~= drops.drop_last());
    } else {
        assert(drops.update(i, slot).drop_last() =~= drops.drop_last().update(i, slot));
        lemma_unclaimed_update(drops.drop_last(), i, slot);
    }
}

/// Conservation: the ledger balance of the engine's custody identity equals
/// the sum of the deposits of all currently stored unclaimed drops.
pub open spec fn conserved(c: ContractView, l: Seq<i128>) -> bool {
    bal(l, c.custody) == unclaimed_total(c.drops)
}

/// A successful creation increments the drop count by exactly one, and the
/// returned id equals the new count.
pub proof fn lemma_create_increments_count(
    c0: ContractView,
    l0: Seq<i128>,
    creator: u64,
    amount: i128,
    message: Seq<char>,
    auth: bool,
    c1: ContractView,
    l1: Seq<i128>,
    id: u64,
)
    requires
        c0.drop_count < u64::MAX,
        create_transition(c0, l0, creator, amount, message, auth, c1, l1, Ok(id)),
    ensures
        c1.drop_count == c0.drop_count + 1,
        id == c1.drop_count,
{
}

/// A drop is claimed at most once: after one successful claim of `id`, a
/// second claim of `id` — by the same or a different claimer — never
/// succeeds; with a valid authorization it fails with `AlreadyClaimed`, and
/// either way it leaves the stored records and the balances exactly as the
/// first claim left them.
pub proof fn lemma_claim_exactly_once(
    c0: ContractView,
    l0: Seq<i128>,
    c1: ContractView,
    l1: Seq<i128>,
    c2: ContractView,
    l2: Seq<i128>,
    id: u64,
    first_claimer: u64,
    first_auth: bool,
    second_claimer: u64,
    second_auth: bool,
    r2: Result<(), Error>,
)
    requires
        claim_transition(c0, l0, id, first_claimer, first_auth, c1, l1, Ok(())),
        claim_transition(c1, l1, id, second_claimer, second_auth, c2, l2, r2),
    ensures
        r2 is Err,
        second_auth ==> r2 == Err::<(), Error>(Error::AlreadyClaimed),
        c2 == c1,
        l2 == l1,
{
    assert(live(c1, id));
    assert(record_of(c1, id).claimed);
}

/// A successful cancellation erases the record: the id is dead afterwards.
pub proof fn lemma_cancel_kills(
    c0: ContractView,
    l0: Seq<i128>,
    id: u64,
    creator: u64,
    auth: bool,
    c1: ContractView,
    l1: Seq<i128>,
)
    requires
        cancel_transition(c0, l0, id, creator, auth, c1, l1, Ok(())),
    ensures
        dead(c1, id),
{
}

/// A dead id is not stored, so looking it up reports `NotFound`.
pub proof fn lemma_dead_not_live(c: ContractView, id: u64)
    requires
        dead(c, id),
    ensures
        !live(c, id),
{
}

/// A dead id stays dead across `initialize`.
pub proof fn lemma_dead_permanent_initialize(
    c0: ContractView,
    id: u64,
    token: u64,
    c1: ContractView,
    r: Result<(), Error>,
)
    requires
        dead(c0, id),
        init_transition(c0, token, c1, r),
    ensures
        dead(c1, id),
{
}

/// A dead id stays dead across `create_drop`: the id a creation hands out
/// is strictly larger than every id ever assigned, so a cancelled id is
/// never reused.
pub proof fn lemma_dead_permanent_create(
    c0: ContractView,
    l0: Seq<i128>,
    creator: u64,
    amount: i128,
    message: Seq<char>,
    auth: bool,
    c1: ContractView,
    l1: Seq<i128>,
    r: Result<u64, Error>,
    id: u64,
)
    requires
        dead(c0, id),
        create_transition(c0, l0, creator, amount, message, auth, c1, l1, r),
    ensures
        dead(c1, id),
{
}

/// A dead id stays dead across `claim_drop`, whatever id that claim names.
pub proof fn lemma_dead_permanent_claim(
    c0: ContractView,
    l0: Seq<i128>,
    other: u64,
    claimer: u64,
    auth: bool,
    c1: ContractView,
    l1: Seq<i128>,
    r: Result<(), Error>,
    id: u64,
)
    requires
        dead(c0, id),
        claim_transition(c0, l0, other, claimer, auth, c1, l1, r),
    ensures
        dead(c1, id),
{
}

/// A dead id stays dead across `cancel_drop`, whatever id that
/// cancellation names.
pub proof fn lemma_dead_permanent_cancel(
    c0: ContractView,
    l0: Seq<i128>,
    other: u64,
    creator: u64,
    auth: bool,
    c1: ContractView,
    l1: Seq<i128>,
    r: Result<(), Error>,
    id: u64,
)
    requires
        dead(c0, id),
        cancel_transition(c0, l0, other, creator, auth, c1, l1, r),
    ensures
        dead(c1, id),
{
}

/// The drop with this id is stored and marked claimed.
pub open spec fn claimed_record(c: ContractView, id: u64) -> bool {
    &&& live(c, id)
    &&& record_of(c, id).claimed
}

/// A claimed drop is claimed for good across `initialize`: the record is
/// kept as historical proof and the mark never reverts.
pub proof fn lemma_claimed_permanent_initialize(
    c0: ContractView,
    id: u64,
    token: u64,
    c1: ContractView,
    r: Result<(), Error>,
)
    requires
        claimed_record(c0, id),
        init_transition(c0, token, c1, r),
    ensures
        claimed_record(c1, id),
{
}

/// A claimed drop is claimed for good across `create_drop`.
pub proof fn lemma_claimed_permanent_create(
    c0: ContractView,
    l0: Seq<i128>,
    creator: u64,
    amount: i128,
    message: Seq<char>,
    auth: bool,
    c1: ContractView,
    l1: Seq<i128>,
    r: Result<u64, Error>,
    id: u64,
)
    requires
        claimed_record(c0, id),
        create_transition(c0, l0, creator, amount, message, auth, c1, l1, r),
    ensures
        claimed_record(c1, id),
{
}

/// A claimed drop is claimed for good across `claim_drop`, whatever id
/// that claim names.
pub proof fn lemma_claimed_permanent_claim(
    c0: ContractView,
    l0: Seq<i128>,
    other: u64,
    claimer: u64,
    auth: bool,
    c1: ContractView,
    l1: Seq<i128>,
    r: Result<(), Error>,
    id: u64,
)
    requires
        claimed_record(c0, id),
        claim_transition(c0, l0, other, claimer, auth, c1, l1, r),
    ensures
        claimed_record(c1, id),
{
}

/// A claimed drop is claimed for good across `cancel_drop`: cancellation
/// of a claimed drop is permanently foreclosed, and cancelling another
/// drop does not touch it.
pub proof fn lemma_claimed_permanent_cancel(
    c0: ContractView,
    l0: Seq<i128>,
    other: u64,
    creator: u64,
    auth: bool,
    c1: ContractView,
    l1: Seq<i128>,
    r: Result<(), Error>,
    id: u64,
)
    requires
        claimed_record(c0, id),
        cancel_transition(c0, l0, other, creator, auth, c1, l1, r),
    ensures
        claimed_record(c1, id),
{
}

/// Conservation holds at the start: a fresh engine stores nothing, and its
/// custody identity holds nothing.
pub proof fn lemma_conservation_initial(c: ContractView, l: Seq<i128>)
    requires
        c.drops == Seq::<Option<DropData>>::empty(),
        bal(l, c.custody) == 0,
    ensures
        conserved(c, l),
{
}

/// `initialize` touches neither the records nor the ledger, so it
/// preserves conservation.
pub proof fn lemma_initialize_preserves_conservation(
    c0: ContractView,
    l: Seq<i128>,
    token: u64,
    c1: ContractView,
    r: Result<(), Error>,
)
    requires
        conserved(c0, l),
        init_transition(c0, token, c1, r),
    ensures
        conserved(c1, l),
{
}

/// `create_drop` preserves conservation: a successful creation moves the
/// deposit from the creator into custody and stores an unclaimed record of
/// the same amount; a failed one moves and stores nothing.  (A creator
/// cannot be the custody identity itself.)
pub proof fn lemma_create_preserves_conservation(
    c0: ContractView,
    l0: Seq<i128>,
    creator: u64,
    amount: i128,
    message: Seq<char>,
    auth: bool,
    c1: ContractView,
    l1: Seq<i128>,
    r: Result<u64, Error>,
)
    requires
        conserved(c0, l0),
        ledger_ok(l0),
        creator != c0.custody,
        create_transition(c0, l0, creator, amount, message, auth, c1, l1, r),
    ensures
        conserved(c1, l1),
{
    if auth && amount > 0 && c0.token is Some && crate::ledger::can_transfer(
        l0,
        creator,
        c0.custody,
        amount,
    ) {
        lemma_total_pair_bound(l0, creator as int, c0.custody as int);
        let created = DropData {
            id: (c0.drop_count + 1) as u64,
            creator,
            amount,
            message,
            claimed: false,
            claimer: None::<u64>,
        };
        lemma_unclaimed_push(c0.drops, Some(created));
    }
}

/// `claim_drop` preserves conservation: a successful claim pays the
/// claimer out of custody and marks the record claimed, removing exactly
/// its deposit from both sides of the balance; a failed one changes
/// nothing.  (A claimer cannot be the custody identity itself.)
pub proof fn lemma_claim_preserves_conservation(
    c0: ContractView,
    l0: Seq<i128>,
    id: u64,
    claimer: u64,
    auth: bool,
    c1: ContractView,
    l1: Seq<i128>,
    r: Result<(), Error>,
)
    requires
        conserved(c0, l0),
        claimer != c0.custody,
        claim_transition(c0, l0, id, claimer, auth, c1, l1, r),
    ensures
        conserved(c1, l1),
{
    if auth && live(c0, id) {
        let d = record_of(c0, id);
        if !d.claimed && crate::ledger::can_transfer(l0, c0.custody, claimer, d.amount) {
            let claimed_record = DropData { claimed: true, claimer: Some(claimer), ..d };
            lemma_unclaimed_update(c0.drops, id as int - 1, Some(claimed_record));
        }
    }
}

/// `cancel_drop` preserves conservation: a successful cancellation pays
/// the deposit back to the creator and erases the unclaimed record, again
/// removing exactly one deposit from both sides; a failed one changes
/// nothing.  (A creator cannot be the custody identity itself.)
pub proof fn lemma_cancel_preserves_conservation(
    c0: ContractView,
    l0: Seq<i128>,
    id: u64,
    creator: u64,
    auth: bool,
    c1: ContractView,
    l1: Seq<i128>,
    r: Result<(), Error>,
)
    requires
        conserved(c0, l0),
        creator != c0.custody,
        cancel_transition(c0, l0, id, creator, auth, c1, l1, r),
    ensures
        conserved(c1, l1),
{
    if auth && live(c0, id) {
        let d = record_of(c0, id);
        if d.creator == creator && !d.claimed && crate::ledger::can_transfer(
            l0,
            c0.custody,
            creator,
            d.amount,
        ) {
            lemma_unclaimed_update(c0.drops, id as int - 1, None::<DropData>);
        }
    }
}

} // verus!
