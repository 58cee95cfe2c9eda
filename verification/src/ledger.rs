//! The players' and the operator's wallets: who holds how much outside the
//! escrow.

use vstd::prelude::*;
use crate::error::ErrorCode;
use crate::identity::Identity;

verus! {

/// One identity's funds.
#[derive(Clone, Copy, Debug)]
struct Wallet {
    owner: Identity,
    lamports: u64,
}

/// Whether `i` is the first wallet in `wallets` that belongs to `who`.
spec fn is_first(wallets: Seq<Wallet>, who: Identity, i: int) -> bool {
    &&& 0 <= i < wallets.len()
    &&& wallets[i].owner == who
    &&& forall|j: int| 0 <= j < i ==> wallets[j].owner != who
}

/// What `who` holds according to a list of wallets: the funds of the first
/// wallet that is theirs, and nothing if none is.
spec fn balance_in(wallets: Seq<Wallet>, who: Identity) -> nat {
    if exists|i: int| is_first(wallets, who, i) {
        let i = choose|i: int| is_first(wallets, who, i);
        wallets[i].lamports as nat
    } else {
        0
    }
}

proof fn lemma_balance_found(wallets: Seq<Wallet>, who: Identity, i: int)
    requires
        is_first(wallets, who, i),
    ensures
        balance_in(wallets, who) == wallets[i].lamports,
{
    let c = choose|c: int| is_first(wallets, who, c);
    assert(is_first(wallets, who, c));
    assert(c == i) by {
        if c < i {
            assert(wallets[c].owner != who);
        } else if i < c {
            assert(wallets[i].owner != who);
        }
    }
}

proof fn lemma_balance_absent(wallets: Seq<Wallet>, who: Identity)
    requires
        forall|j: int| 0 <= j < wallets.len() ==> wallets[j].owner != who,
    ensures
        balance_in(wallets, who) == 0,
{
}

proof fn lemma_balance_elsewhere(before: Seq<Wallet>, after: Seq<Wallet>, other: Identity)
    requires
        before.len() <= after.len(),
        forall|j: int| 0 <= j < before.len() && before[j].owner == other ==> after[j] == before[j],
        forall|j: int| 0 <= j < before.len() ==> after[j].owner == before[j].owner,
        forall|j: int| before.len() <= j < after.len() ==> after[j].owner != other,
    ensures
        balance_in(after, other) == balance_in(before, other),
{
    if exists|i: int| is_first(before, other, i) {
        let i = choose|i: int| is_first(before, other, i);
        assert(is_first(after, other, i));
        lemma_balance_found(before, other, i);
        lemma_balance_found(after, other, i);
    } else {
        if exists|k: int| is_first(after, other, k) {
            let k = choose|k: int| is_first(after, other, k);
            assert(k < before.len());
            assert(is_first(before, other, k));
        }
    }
}

/// A book of wallets. Every identity has a balance in it; one that was never
/// funded holds nothing.
#[derive(Debug)]
pub struct Ledger {
    wallets: Vec<Wallet>,
}

impl View for Ledger {
    type V = Map<Identity, nat>;

    /// The balance of every identity.
    closed spec fn view(&self) -> Map<Identity, nat> {
        Map::total(|who: Identity| balance_in(self.wallets@, who))
    }
}

impl Ledger {
    /// A book in which nobody holds anything.
    pub fn new() -> (ledger: Ledger)
        ensures
            ledger@ == Map::<Identity, nat>::total(|who: Identity| 0nat),
    {
        let ledger = Ledger { wallets: Vec::new() };
        proof {
            assert forall|who: Identity| balance_in(ledger.wallets@, who) == 0 by {
                lemma_balance_absent(ledger.wallets@, who);
            }
            assert(ledger@ =~= Map::<Identity, nat>::total(|who: Identity| 0nat));
        }
        ledger
    }

    /// Every identity has a balance, and each balance fits in 64 bits.
    pub proof fn lemma_total(&self)
        ensures
            forall|who: Identity| self@.dom().contains(who) && #[trigger] self@[who] <= u64::MAX,
    {
    }

    /// Position of the first wallet that belongs to `who`, if any.
    fn find(&self, who: &Identity) -> (at: Option<usize>)
        ensures
            match at {
                Some(i) => is_first(self.wallets@, *who, i as int),
                None => forall|j: int| 0 <= j < self.wallets@.len() ==> self.wallets@[j].owner != *who,
            },
    {
        let mut i: usize = 0;
        while i < self.wallets.len()
            invariant
                i <= self.wallets@.len(),
                forall|j: int| 0 <= j < i ==> self.wallets@[j].owner != *who,
            decreases self.wallets@.len() - i,
        {
            if self.wallets[i].owner == *who {
                return Some(i);
            }
            i += 1;
        }
        None
    }

    /// What `who` holds.
    pub fn balance(&self, who: &Identity) -> (lamports: u64)
        ensures
            lamports == self@[*who],
    {
        match self.find(who) {
            Some(i) => {
                proof {
                    lemma_balance_found(self.wallets@, *who, i as int);
                }
                self.wallets[i].lamports
            },
            None => {
                proof {
                    lemma_balance_absent(self.wallets@, *who);
                }
                0
            },
        }
    }

    /// Makes `who` hold exactly `lamports`, leaving everybody else's balance
    /// as it was.
    pub fn set_balance(&mut self, who: Identity, lamports: u64)
        ensures
            final(self)@ == old(self)@.insert(who, lamports as nat),
    {
        let wallet = Wallet { owner: who, lamports };
        match self.find(&who) {
            Some(i) => {
                self.wallets[i] = wallet;
                proof {
                    lemma_balance_found(self.wallets@, who, i as int);
                }
            },
            None => {
                self.wallets.push(wallet);
                proof {
                    lemma_balance_found(self.wallets@, who, self.wallets@.len() - 1);
                }
            },
        }
        proof {
            assert forall|other: Identity| other != who implies balance_in(
                self.wallets@,
                other,
            ) == balance_in(old(self).wallets@, other) by {
                lemma_balance_elsewhere(old(self).wallets@, self.wallets@, other);
            }
            assert(self@ =~= old(self)@.insert(who, lamports as nat));
        }
    }

    /// Adds `amount` to what `who` holds. Refused with `InsufficientFunds`,
    /// and nothing changes, when the balance would no longer fit in 64 bits.
    pub fn credit(&mut self, who: Identity, amount: u64) -> (r: Result<(), ErrorCode>)
        ensures
            match credited(old(self)@, who, amount) {
                Ok(after) => r == Ok::<(), ErrorCode>(()) && final(self)@ == after,
                Err(e) => r == Err::<(), ErrorCode>(e) && final(self)@ == old(self)@,
            },
    {
        let held = self.balance(&who);
        match held.checked_add(amount) {
            Some(sum) => {
                self.set_balance(who, sum);
                Ok(())
            },
            None => Err(ErrorCode::InsufficientFunds),
        }
    }

    /// Takes `amount` from what `who` holds. Refused with
    /// `InsufficientFunds`, and nothing changes, when `who` holds less.
    pub fn debit(&mut self, who: Identity, amount: u64) -> (r: Result<(), ErrorCode>)
        ensures
            match debited(old(self)@, who, amount) {
                Ok(after) => r == Ok::<(), ErrorCode>(()) && final(self)@ == after,
                Err(e) => r == Err::<(), ErrorCode>(e) && final(self)@ == old(self)@,
            },
    {
        let held = self.balance(&who);
        match held.checked_sub(amount) {
            Some(rest) => {
                self.set_balance(who, rest);
                Ok(())
            },
            None => Err(ErrorCode::InsufficientFunds),
        }
    }
}

/// The balances after `who` has received `amount`, unless that would take the
/// balance past what 64 bits can hold.
pub open spec fn credited(balances: Map<Identity, nat>, who: Identity, amount: u64) -> Result<
    Map<Identity, nat>,
    ErrorCode,
> {
    if balances[who] + amount <= u64::MAX {
        Ok(balances.insert(who, (balances[who] + amount) as nat))
    } else {
        Err(ErrorCode::InsufficientFunds)
    }
}

/// The balances after `who` has paid `amount`, unless `who` holds less.
pub open spec fn debited(balances: Map<Identity, nat>, who: Identity, amount: u64) -> Result<
    Map<Identity, nat>,
    ErrorCode,
> {
    if balances[who] >= amount {
        Ok(balances.insert(who, (balances[who] - amount) as nat))
    } else {
        Err(ErrorCode::InsufficientFunds)
    }
}

} // verus!
