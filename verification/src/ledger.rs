use vstd::prelude::*;

verus! {

/// Sum of all balances of a ledger state.
pub open spec fn balance_total(s: Seq<i128>) -> int
    decreases s.len(),
{
    if s.len() == 0 {
        0
    } else {
        balance_total(s.drop_last()) + s.last()
    }
}

/// Every balance is non-negative.
pub open spec fn nonneg(s: Seq<i128>) -> bool {
    forall|i: int| 0 <= i < s.len() ==> s[i] >= 0
}

/// Balance of `id` in ledger state `s`; identities outside the ledger hold
/// nothing.
pub open spec fn bal(s: Seq<i128>, id: u64) -> int {
    if (id as int) < s.len() {
        s[id as int] as int
    } else {
        0
    }
}

/// Exactly when the ledger accepts a transfer of `amount` from `from` to
/// `to`: both identities are known, the amount is non-negative, and the
/// sender's balance suffices.
pub open spec fn can_transfer(s: Seq<i128>, from: u64, to: u64, amount: i128) -> bool {
    &&& 0 <= amount
    &&& (from as int) < s.len()
    &&& (to as int) < s.len()
    &&& amount <= s[from as int]
}

/// Ledger state after a transfer of `amount` from `from` to `to`: the
/// sender's balance is debited, then the receiver's is credited (so a
/// self-transfer leaves the state unchanged).
pub open spec fn apply_transfer(s: Seq<i128>, from: u64, to: u64, amount: i128) -> Seq<i128> {
    let debited = s.update(from as int, (s[from as int] - amount) as i128);
    debited.update(to as int, (debited[to as int] + amount) as i128)
}

/// Appending a balance adds it to the total.
pub proof fn lemma_total_push(s: Seq<i128>, x: i128)
    ensures
        balance_total(s.push(x)) == balance_total(s) + x,
{
    assert(s.push(x).drop_last() =~= s);
}

/// Overwriting one balance shifts the total by the difference.
pub proof fn lemma_total_update(s: Seq<i128>, i: int, v: i128)
    requires
        0 <= i < s.len(),
    ensures
        balance_total(s.update(i, v)) == balance_total(s) - s[i] + v,
    decreases s.len(),
{
    if i == s.len() - 1 {
        assert(s.update(i, v).drop_last() =~= s.drop_last());
    } else {
        assert(s.update(i, v).drop_last() =~= s.drop_last().update(i, v));
        lemma_total_update(s.drop_last(), i, v);
    }
}

/// With non-negative balances, the total is non-negative.
pub proof fn lemma_total_nonneg(s: Seq<i128>)
    requires
        nonneg(s),
    ensures
        balance_total(s) >= 0,
    decreases s.len(),
{
    if s.len() > 0 {
        lemma_total_nonneg(s.drop_last());
    }
}

/// With non-negative balances, each single balance is at most the total.
pub proof fn lemma_total_entry_bound(s: Seq<i128>, i: int)
    requires
        nonneg(s),
        0 <= i < s.len(),
    ensures
        s[i] <= balance_total(s),
        balance_total(s) >= 0,
    decreases s.len(),
{
    if s.len() == 1 {
    } else if i == s.len() - 1 {
        lemma_total_entry_bound(s.drop_last(), 0);
    } else {
        lemma_total_entry_bound(s.drop_last(), i);
    }
}

/// With non-negative balances, any two distinct balances together are at
/// most the total.
pub proof fn lemma_total_pair_bound(s: Seq<i128>, i: int, j: int)
    requires
        nonneg(s),
        0 <= i < s.len(),
        0 <= j < s.len(),
        i != j,
    ensures
        s[i] + s[j] <= balance_total(s),
{
    let cleared = s.update(i, 0);
    lemma_total_update(s, i, 0);
    lemma_total_entry_bound(cleared, j);
}

/// The whole ledger state is healthy: no negative balances, and the total
/// supply fits the balance type (so no credit can overflow).
pub open spec fn ledger_ok(s: Seq<i128>) -> bool {
    &&& nonneg(s)
    &&& balance_total(s) <= i128::MAX
}

/// A verified model of the fungible-token ledger the escrow engine
/// collaborates with.
///
/// It keeps one balance per identity (identities are indices into the
/// account table), lets balances be minted for test and deployment setup,
/// and moves value only through [`Ledger::transfer`], which enforces
/// sender-balance sufficiency and fails without touching any state.
pub struct Ledger {
    accounts: Vec<i128>,
    total: i128,
}

impl View for Ledger {
    type V = Seq<i128>;

    closed spec fn view(&self) -> Seq<i128> {
        self.accounts@
    }
}

impl Ledger {
    /// The representation is healthy and the cached total supply is exact.
    pub closed spec fn wf(&self) -> bool {
        &&& nonneg(self@)
        &&& self.total == balance_total(self@)
    }

    /// A healthy ledger has a healthy state.
    pub proof fn lemma_wf_ok(&self)
        requires
            self.wf(),
        ensures
            ledger_ok(self@),
    {
    }

    /// A fresh ledger with `n_accounts` identities, all holding nothing.
    pub fn new(n_accounts: usize) -> (l: Ledger)
        ensures
            l.wf(),
            l@.len() == n_accounts,
            forall|id: u64| bal(l@, id) == 0,
            forall|i: int| 0 <= i < l@.len() ==> l@[i] == 0,
            balance_total(l@) == 0,
    {
        let mut accounts: Vec<i128> = Vec::new();
        while accounts.len() < n_accounts
            invariant
                accounts@.len() <= n_accounts,
                forall|i: int| 0 <= i < accounts@.len() ==> accounts@[i] == 0,
                balance_total(accounts@) == 0,
            decreases n_accounts - accounts.len(),
        {
            proof {
                lemma_total_push(accounts@, 0);
            }
            accounts.push(0);
        }
        Ledger { accounts, total: 0 }
    }

    /// Current balance of `id`.
    pub fn balance_of(&self, id: u64) -> (r: i128)
        ensures
            r as int == bal(self@, id),
    {
        if id < self.accounts.len() as u64 {
            self.accounts[id as usize]
        } else {
            0
        }
    }

    /// Credit `amount` to `id` out of thin air, as the token's issuer does
    /// at deployment time.  Succeeds exactly when `id` is a known identity,
    /// the amount is non-negative, and the new total supply still fits the
    /// balance type.
    pub fn mint(&mut self, id: u64, amount: i128) -> (ok: bool)
        requires
            old(self).wf(),
        ensures
            final(self).wf(),
            ok == ((id as int) < old(self)@.len() && 0 <= amount && balance_total(old(self)@)
                + amount <= i128::MAX),
            ok ==> final(self)@ == old(self)@.update(
                id as int,
                (old(self)@[id as int] + amount) as i128,
            ),
            ok ==> balance_total(final(self)@) == balance_total(old(self)@) + amount,
            !ok ==> *final(self) == *old(self),
    {
        if !(id < self.accounts.len() as u64) {
            return false;
        }
        if amount < 0 {
            return false;
        }
        proof {
            lemma_total_nonneg(self.accounts@);
        }
        if amount > i128::MAX - self.total {
            return false;
        }
        let idx = id as usize;
        proof {
            lemma_total_entry_bound(self.accounts@, idx as int);
        }
        let before = self.accounts[idx];
        let updated = before + amount;
        self.accounts[idx] = updated;
        proof {
            lemma_total_update(old(self).accounts@, idx as int, updated);
        }
        self.total = self.total + amount;
        true
    }

    /// Move `amount` from `from` to `to`.  Succeeds exactly when the ledger
    /// accepts the movement ([`can_transfer`]); on failure nothing changes.
    pub fn transfer(&mut self, from: u64, to: u64, amount: i128) -> (ok: bool)
        requires
            old(self).wf(),
        ensures
            final(self).wf(),
            ok == can_transfer(old(self)@, from, to, amount),
            ok ==> final(self)@ == apply_transfer(old(self)@, from, to, amount),
            ok ==> balance_total(final(self)@) == balance_total(old(self)@),
            !ok ==> *final(self) == *old(self),
    {
        if amount < 0 {
            return false;
        }
        if !(from < self.accounts.len() as u64) {
            return false;
        }
        if !(to < self.accounts.len() as u64) {
            return false;
        }
        let fi = from as usize;
        let ti = to as usize;
        let sender_before = self.accounts[fi];
        if amount > sender_before {
            return false;
        }
        let ghost s0 = self.accounts@;
        self.accounts[fi] = sender_before - amount;
        proof {
            lemma_total_update(s0, fi as int, (sender_before - amount) as i128);
            lemma_total_entry_bound(self.accounts@, ti as int);
        }
        let ghost s1 = self.accounts@;
        let receiver_before = self.accounts[ti];
        self.accounts[ti] = receiver_before + amount;
        proof {
            lemma_total_update(s1, ti as int, (receiver_before + amount) as i128);
        }
        true
    }
}

} // verus!
