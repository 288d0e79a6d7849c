use vstd::prelude::*;

use crate::errors::Error;
use crate::ledger::Ledger;
use crate::ledger::apply_transfer;
use crate::ledger::can_transfer;
use crate::record::DropData;
use crate::record::DropRecord;
use crate::record::slot_ok;

verus! {

/// Mathematical image of the whole engine: the instance-tier configuration
/// (`token`, `drop_count`), the engine's own custody identity, and the
/// record tier.  Slot `i` of `drops` holds the drop with id `i + 1`; a
/// `None` slot is a cancelled drop, whose id is permanently dead.
#[verifier::ext_equal]
pub struct ContractView {
    pub token: Option<u64>,
    pub drop_count: u64,
    pub custody: u64,
    pub drops: Seq<Option<DropData>>,
}

/// Well-formedness of an engine state: the counter counts every drop ever
/// created, nothing exists before initialization, and every stored record
/// is internally consistent.
pub open spec fn view_ok(v: ContractView) -> bool {
    &&& v.drops.len() == v.drop_count
    &&& v.token is None ==> v.drop_count == 0
    &&& forall|i: int| 0 <= i < v.drops.len() ==> slot_ok(#[trigger] v.drops[i], i)
}

/// A drop with this id is currently stored.
pub open spec fn live(v: ContractView, id: u64) -> bool {
    &&& 1 <= id <= v.drops.len()
    &&& v.drops[id as int - 1] is Some
}

/// The record currently stored under a live id.
pub open spec fn record_of(v: ContractView, id: u64) -> DropData
    recommends
        live(v, id),
{
    v.drops[id as int - 1]->Some_0
}

/// A drop with this id was created and has since been cancelled; such an id
/// can never be reused.
pub open spec fn dead(v: ContractView, id: u64) -> bool {
    &&& 1 <= id <= v.drops.len()
    &&& v.drops[id as int - 1] is None
}

/// Exact effect of `initialize`: it fails if and only if a token is already
/// configured, and otherwise persists the token and a zero counter.
pub open spec fn init_transition(
    pre: ContractView,
    token: u64,
    post: ContractView,
    r: Result<(), Error>,
) -> bool {
    if pre.token is Some {
        &&& r == Err::<(), Error>(Error::AlreadyInitialized)
        &&& post == pre
    } else {
        &&& r == Ok::<(), Error>(())
        &&& post == (ContractView { token: Some(token), drop_count: 0, ..pre })
    }
}

/// Exact effect of `create_drop` on the engine (`pre` to `post`), the
/// ledger (`lpre` to `lpost`) and the result, for every input.  The checks
/// run in the fixed order authorization, amount, initialization, transfer;
/// the first failure aborts with nothing mutated.  On success the deposit
/// moves from the creator into custody and the new record is appended.
pub open spec fn create_transition(
    pre: ContractView,
    lpre: Seq<i128>,
    creator: u64,
    amount: i128,
    message: Seq<char>,
    auth: bool,
    post: ContractView,
    lpost: Seq<i128>,
    r: Result<u64, Error>,
) -> bool {
    if !auth {
        &&& r == Err::<u64, Error>(Error::Unauthorized)
        &&& post == pre
        &&& lpost == lpre
    } else if amount <= 0 {
        &&& r == Err::<u64, Error>(Error::InvalidAmount)
        &&& post == pre
        &&& lpost == lpre
    } else if pre.token is None {
        &&& r == Err::<u64, Error>(Error::NotInitialized)
        &&& post == pre
        &&& lpost == lpre
    } else if !can_transfer(lpre, creator, pre.custody, amount) {
        &&& r == Err::<u64, Error>(Error::TransferFailed)
        &&& post == pre
        &&& lpost == lpre
    } else {
        let id = (pre.drop_count + 1) as u64;
        let created = DropData {
            id,
            creator,
            amount,
            message,
            claimed: false,
            claimer: None::<u64>,
        };
        &&& r == Ok::<u64, Error>(id)
        &&& post == (ContractView {
            drop_count: id,
            drops: pre.drops.push(Some(created)),
            ..pre
        })
        &&& lpost == apply_transfer(lpre, creator, pre.custody, amount)
    }
}

/// Exact effect of `claim_drop`.  The checks run in the fixed order
/// authorization, existence, exactly-once guard, transfer; on success the
/// deposit leaves custody for the claimer and the record — kept as
/// historical proof — is marked claimed.
pub open spec fn claim_transition(
    pre: ContractView,
    lpre: Seq<i128>,
    id: u64,
    claimer: u64,
    auth: bool,
    post: ContractView,
    lpost: Seq<i128>,
    r: Result<(), Error>,
) -> bool {
    if !auth {
        &&& r == Err::<(), Error>(Error::Unauthorized)
        &&& post == pre
        &&& lpost == lpre
    } else if !live(pre, id) {
        &&& r == Err::<(), Error>(Error::NotFound)
        &&& post == pre
        &&& lpost == lpre
    } else {
        let d = record_of(pre, id);
        if d.claimed {
            &&& r == Err::<(), Error>(Error::AlreadyClaimed)
            &&& post == pre
            &&& lpost == lpre
        } else if !can_transfer(lpre, pre.custody, claimer, d.amount) {
            &&& r == Err::<(), Error>(Error::TransferFailed)
            &&& post == pre
            &&& lpost == lpre
        } else {
            let claimed_record = DropData { claimed: true, claimer: Some(claimer), ..d };
            &&& r == Ok::<(), Error>(())
            &&& post == (ContractView {
                drops: pre.drops.update(id as int - 1, Some(claimed_record)),
                ..pre
            })
            &&& lpost == apply_transfer(lpre, pre.custody, claimer, d.amount)
        }
    }
}

/// Exact effect of `cancel_drop`.  The checks run in the fixed order
/// authorization, existence, creatorship, exactly-once guard, transfer; on
/// success the deposit returns from custody to the creator and the record
/// is erased for good.
pub open spec fn cancel_transition(
    pre: ContractView,
    lpre: Seq<i128>,
    id: u64,
    creator: u64,
    auth: bool,
    post: ContractView,
    lpost: Seq<i128>,
    r: Result<(), Error>,
) -> bool {
    if !auth {
        &&& r == Err::<(), Error>(Error::Unauthorized)
        &&& post == pre
        &&& lpost == lpre
    } else if !live(pre, id) {
        &&& r == Err::<(), Error>(Error::NotFound)
        &&& post == pre
        &&& lpost == lpre
    } else {
        let d = record_of(pre, id);
        if d.creator != creator {
            &&& r == Err::<(), Error>(Error::NotCreator)
            &&& post == pre
            &&& lpost == lpre
        } else if d.claimed {
            &&& r == Err::<(), Error>(Error::AlreadyClaimed)
            &&& post == pre
            &&& lpost == lpre
        } else if !can_transfer(lpre, pre.custody, creator, d.amount) {
            &&& r == Err::<(), Error>(Error::TransferFailed)
            &&& post == pre
            &&& lpost == lpre
        } else {
            &&& r == Ok::<(), Error>(())
            &&& post == (ContractView {
                drops: pre.drops.update(id as int - 1, None::<DropData>),
                ..pre
            })
            &&& lpost == apply_transfer(lpre, pre.custody, creator, d.amount)
        }
    }
}

/// The escrow engine: the only owner of the drop records and of the
/// instance-tier configuration.
///
/// Authorization verdicts are passed in by the host: a `true` verdict means
/// the invocation verifiably carries authority from the named identity for
/// this operation and argument set.  Balance movements go through the
/// [`Ledger`] passed alongside; the engine moves funds only as the recorded
/// consequence of one specific drop's lifecycle step.
pub struct GeoDropContract {
    token: Option<u64>,
    drop_count: u64,
    custody: u64,
    drops: Vec<Option<DropRecord>>,
}

impl View for GeoDropContract {
    type V = ContractView;

    closed spec fn view(&self) -> ContractView {
        ContractView {
            token: self.token,
            drop_count: self.drop_count,
            custody: self.custody,
            drops: self.drops@.map_values(
                |slot: Option<DropRecord>|
                    match slot {
                        Some(r) => Some(r@),
                        None => None::<DropData>,
                    },
            ),
        }
    }
}

impl GeoDropContract {
    /// The engine state is well-formed.
    pub open spec fn wf(&self) -> bool {
        view_ok(self@)
    }

    /// A fresh, uninitialized engine whose custody identity — the account
    /// that holds every pending deposit — is `custody`.
    pub fn new(custody: u64) -> (c: GeoDropContract)
        ensures
            c.wf(),
            c@.token is None,
            c@.drop_count == 0,
            c@.custody == custody,
            c@.drops == Seq::<Option<DropData>>::empty(),
    {
        let c = GeoDropContract { token: None, drop_count: 0, custody, drops: Vec::new() };
        proof {
            assert(c@.drops =~= Seq::<Option<DropData>>::empty());
        }
        c
    }

    /// Configure the token this instance escrows.  May succeed at most once
    /// per instance; a second call fails with `AlreadyInitialized`.
    pub fn initialize(&mut self, token: u64) -> (r: Result<(), Error>)
        requires
            old(self).wf(),
        ensures
            final(self).wf(),
            init_transition(old(self)@, token, final(self)@, r),
    {
        if self.token.is_some() {
            return Err(Error::AlreadyInitialized);
        }
        self.token = Some(token);
        self.drop_count = 0;
        proof {
            assert(final(self)@ =~= (ContractView {
                token: Some(token),
                drop_count: 0,
                ..old(self)@
            }));
        }
        Ok(())
    }

    /// Deposit `amount` of the configured token, tagged with `message`.
    ///
    /// `creator_auth` is the authorization verdict for `creator`.  On
    /// success the deposit moves from `creator` into custody, the new
    /// drop's id — one more than every id handed out before — is returned,
    /// and the drop count grows by exactly one.
    pub fn create_drop(
        &mut self,
        ledger: &mut Ledger,
        creator: u64,
        amount: i128,
        message: String,
        creator_auth: bool,
    ) -> (r: Result<u64, Error>)
        requires
            old(self).wf(),
            old(ledger).wf(),
            old(self)@.drop_count < u64::MAX,
        ensures
            final(self).wf(),
            final(ledger).wf(),
            create_transition(
                old(self)@,
                old(ledger)@,
                creator,
                amount,
                message@,
                creator_auth,
                final(self)@,
                final(ledger)@,
                r,
            ),
    {
        if !creator_auth {
            return Err(Error::Unauthorized);
        }
        if amount <= 0 {
            return Err(Error::InvalidAmount);
        }
        if self.token.is_none() {
            return Err(Error::NotInitialized);
        }
        if !ledger.transfer(creator, self.custody, amount) {
            return Err(Error::TransferFailed);
        }
        let id = self.drop_count + 1;
        let record = DropRecord { id, creator, amount, message, claimed: false, claimer: None };
        let ghost data = record@;
        self.drops.push(Some(record));
        self.drop_count = id;
        proof {
            assert(final(self)@.drops =~= old(self)@.drops.push(Some(data)));
            assert(final(self)@ =~= (ContractView {
                drop_count: id,
                drops: old(self)@.drops.push(Some(data)),
                ..old(self)@
            }));
        }
        Ok(id)
    }

    /// Withdraw the deposit of drop `id` to `claimer`.
    ///
    /// `claimer_auth` is the authorization verdict for `claimer`.  A drop
    /// can be claimed at most once: once `claimed` is set, every further
    /// claim fails with `AlreadyClaimed`.  The record itself is kept as
    /// historical proof of the claim.
    pub fn claim_drop(
        &mut self,
        ledger: &mut Ledger,
        id: u64,
        claimer: u64,
        claimer_auth: bool,
    ) -> (r: Result<(), Error>)
        requires
            old(self).wf(),
            old(ledger).wf(),
        ensures
            final(self).wf(),
            final(ledger).wf(),
            claim_transition(
                old(self)@,
                old(ledger)@,
                id,
                claimer,
                claimer_auth,
                final(self)@,
                final(ledger)@,
                r,
            ),
    {
        if !claimer_auth {
            return Err(Error::Unauthorized);
        }
        // The record tier's length is an exec usize, so every id up to
        // drop_count indexes it.
        let slots = self.drops.len();
        proof {
            assert(self@.drops.len() == self.drops@.len());
            assert(slots == self@.drops.len());
        }
        if id == 0 || id > self.drop_count {
            return Err(Error::NotFound);
        }
        let idx = (id - 1) as usize;
        proof {
            assert(self@.drops[idx as int] == (match self.drops@[idx as int] {
                Some(rec) => Some(rec@),
                None => None::<DropData>,
            }));
        }
        let amount: i128;
        match &self.drops[idx] {
            None => {
                return Err(Error::NotFound);
            },
            Some(record) => {
                if record.claimed {
                    return Err(Error::AlreadyClaimed);
                }
                amount = record.amount;
            },
        }
        if !ledger.transfer(self.custody, claimer, amount) {
            return Err(Error::TransferFailed);
        }
        let ghost before = self@.drops;
        match &mut self.drops[idx] {
            Some(record) => {
                record.claimed = true;
                record.claimer = Some(claimer);
            },
            None => {
                proof {
                    assert(false);
                }
            },
        }
        proof {
            let d = record_of(old(self)@, id);
            let claimed_record = DropData { claimed: true, claimer: Some(claimer), ..d };
            assert(final(self)@.drops =~= before.update(idx as int, Some(claimed_record)));
            assert(final(self)@ =~= (ContractView {
                drops: before.update(idx as int, Some(claimed_record)),
                ..old(self)@
            }));
        }
        Ok(())
    }

    /// Read the record stored under `id`, or fail with `NotFound`.  Records
    /// are not confidential, so no authorization is required; nothing is
    /// mutated.
    pub fn get_drop(&self, id: u64) -> (r: Result<DropRecord, Error>)
        requires
            self.wf(),
        ensures
            (match r {
                Ok(record) => live(self@, id) && record@ == record_of(self@, id),
                Err(e) => e == Error::NotFound && !live(self@, id),
            }),
    {
        // The record tier's length is an exec usize, so every id up to
        // drop_count indexes it.
        let slots = self.drops.len();
        proof {
            assert(self@.drops.len() == self.drops@.len());
            assert(slots == self@.drops.len());
        }
        if id == 0 || id > self.drop_count {
            return Err(Error::NotFound);
        }
        let idx = (id - 1) as usize;
        proof {
            assert(self@.drops[idx as int] == (match self.drops@[idx as int] {
                Some(rec) => Some(rec@),
                None => None::<DropData>,
            }));
        }
        match &self.drops[idx] {
            None => Err(Error::NotFound),
            Some(record) => Ok(
                DropRecord {
                    id: record.id,
                    creator: record.creator,
                    amount: record.amount,
                    message: record.message.clone(),
                    claimed: record.claimed,
                    claimer: record.claimer,
                },
            ),
        }
    }

    /// Total number of drops ever created — cancellation and claiming never
    /// decrement it.  Zero on an engine that was never initialized.
    pub fn get_drop_count(&self) -> (r: u64)
        ensures
            r == self@.drop_count,
    {
        self.drop_count
    }

    /// Return the deposit of the unclaimed drop `id` to its creator and
    /// erase the record for good.
    ///
    /// `creator_auth` is the authorization verdict for `creator`.  Only the
    /// stored creator may cancel: any other identity fails with
    /// `NotCreator`, even with a valid authorization of its own.
    pub fn cancel_drop(
        &mut self,
        ledger: &mut Ledger,
        id: u64,
        creator: u64,
        creator_auth: bool,
    ) -> (r: Result<(), Error>)
        requires
            old(self).wf(),
            old(ledger).wf(),
        ensures
            final(self).wf(),
            final(ledger).wf(),
            cancel_transition(
                old(self)@,
                old(ledger)@,
                id,
                creator,
                creator_auth,
                final(self)@,
                final(ledger)@,
                r,
            ),
    {
        if !creator_auth {
            return Err(Error::Unauthorized);
        }
        // The record tier's length is an exec usize, so every id up to
        // drop_count indexes it.
        let slots = self.drops.len();
        proof {
            assert(self@.drops.len() == self.drops@.len());
            assert(slots == self@.drops.len());
        }
        if id == 0 || id > self.drop_count {
            return Err(Error::NotFound);
        }
        let idx = (id - 1) as usize;
        proof {
            assert(self@.drops[idx as int] == (match self.drops@[idx as int] {
                Some(rec) => Some(rec@),
                None => None::<DropData>,
            }));
        }
        let amount: i128;
        match &self.drops[idx] {
            None => {
                return Err(Error::NotFound);
            },
            Some(record) => {
                if record.creator != creator {
                    return Err(Error::NotCreator);
                }
                if record.claimed {
                    return Err(Error::AlreadyClaimed);
                }
                amount = record.amount;
            },
        }
        if !ledger.transfer(self.custody, creator, amount) {
            return Err(Error::TransferFailed);
        }
        let ghost before = self@.drops;
        let slot = &mut self.drops[idx];
        *slot = None;
        proof {
            assert(final(self)@.drops =~= before.update(idx as int, None::<DropData>));
            assert(final(self)@ =~= (ContractView {
                drops: before.update(idx as int, None::<DropData>),
                ..old(self)@
            }));
        }
        Ok(())
    }
}

} // verus!
