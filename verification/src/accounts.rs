//! The accounts of one invocation and the balances behind them.
//!
//! An invocation receives an ordered list of account references. A reference
//! is a handle, not a copy: two references to one account see one balance.
//! `Accounts` keeps the references in the order given and the balances in
//! slots of their own, so that a reference names its balance by its slot and
//! two references to one account name the same slot.

use vstd::prelude::*;
use crate::address::Address;

verus! {

/// A reference to an account, as the caller of the program annotated it.
#[derive(Clone, Copy, Debug, PartialEq, Eq)]
pub struct AccountRef {
    /// Address of the account.
    pub key: Address,
    /// Slot of `Accounts::balances` that holds the account's balance.
    pub slot: usize,
    /// Whether the account signed the transaction.
    pub is_signer: bool,
    /// Whether the invocation may change the account.
    pub is_writable: bool,
}

/// The account references of an invocation, in order, with their balances.
#[derive(Clone, Debug, PartialEq, Eq)]
pub struct Accounts {
    /// The references, in the order in which the invocation lists them.
    pub refs: Vec<AccountRef>,
    /// The balance of each distinct account, in base units.
    pub balances: Vec<u64>,
}

/// Every reference of `refs` names a slot of `balances`.
pub open spec fn slots_in_range(refs: Seq<AccountRef>, balances: Seq<u64>) -> bool {
    forall|i: int| 0 <= i < refs.len() ==> (#[trigger] refs[i]).slot < balances.len()
}

/// No reference of `refs` has the address `key`.
pub open spec fn key_absent(refs: Seq<AccountRef>, key: Seq<u8>) -> bool {
    forall|i: int| 0 <= i < refs.len() ==> (#[trigger] refs[i]).key@ != key
}

/// The reference at position `at` is the first of `refs` with the address `key`.
pub open spec fn first_with_key(refs: Seq<AccountRef>, key: Seq<u8>, at: int) -> bool {
    &&& 0 <= at < refs.len()
    &&& refs[at].key@ == key
    &&& key_absent(refs.take(at), key)
}

/// The sum of all balances.
pub open spec fn total(balances: Seq<u64>) -> nat
    decreases balances.len(),
{
    if balances.len() == 0 {
        0
    } else {
        total(balances.drop_last()) + balances.last() as nat
    }
}

/// Replacing one balance changes the sum by the difference.
pub proof fn total_after_update(balances: Seq<u64>, slot: int, value: u64)
    requires
        0 <= slot < balances.len(),
    ensures
        total(balances.update(slot, value)) + balances[slot] == total(balances) + value,
    decreases balances.len(),
{
    let updated = balances.update(slot, value);
    if slot == balances.len() - 1 {
        assert(updated.drop_last() =~= balances.drop_last());
    } else {
        assert(updated.drop_last() =~= balances.drop_last().update(slot, value));
        total_after_update(balances.drop_last(), slot, value);
    }
}

impl Accounts {
    /// Every reference names a slot that exists.
    pub open spec fn wf(&self) -> bool {
        slots_in_range(self.refs@, self.balances@)
    }

    /// Two references name the same slot exactly when they have the same
    /// address.
    pub open spec fn consistent(&self) -> bool {
        forall|i: int, j: int|
            #![trigger self.refs@[i], self.refs@[j]]
            0 <= i < self.refs@.len() && 0 <= j < self.refs@.len() ==> (self.refs@[i].key@
                == self.refs@[j].key@ <==> self.refs@[i].slot == self.refs@[j].slot)
    }

    /// The balance of the account at position `i` of the list.
    pub open spec fn balance_at(&self, i: int) -> u64 {
        self.balances@[self.refs@[i].slot as int]
    }

    /// An empty list.
    pub fn new() -> (accounts: Accounts)
        ensures
            accounts.refs@.len() == 0,
            accounts.balances@.len() == 0,
            accounts.wf(),
            accounts.consistent(),
    {
        Accounts { refs: Vec::new(), balances: Vec::new() }
    }

    /// Tests whether every reference names a slot that exists.
    pub fn is_wf(&self) -> (ok: bool)
        ensures
            ok == self.wf(),
    {
        let mut i: usize = 0;
        while i < self.refs.len()
            invariant
                i <= self.refs@.len(),
                forall|j: int| 0 <= j < i ==> (#[trigger] self.refs@[j]).slot < self.balances@.len(),
            decreases self.refs@.len() - i,
        {
            if self.refs[i].slot >= self.balances.len() {
                return false;
            }
            i += 1;
        }
        true
    }

    /// Number of references in the list.
    pub fn len(&self) -> (n: usize)
        ensures
            n == self.refs@.len(),
    {
        self.refs.len()
    }

    /// The balance of the account at position `i` of the list.
    pub fn balance(&self, i: usize) -> (balance: u64)
        requires
            self.wf(),
            i < self.refs@.len(),
        ensures
            balance == self.balance_at(i as int),
    {
        self.balances[self.refs[i].slot]
    }

    /// Appends a reference to the account at `key`.
    ///
    /// Where an earlier reference has the same address, the new one shares
    /// its slot and `lamports` is not read: the balance is already there.
    /// Otherwise the account gets a new slot that holds `lamports`.
    pub fn load(
        &mut self,
        key: Address,
        lamports: u64,
        is_signer: bool,
        is_writable: bool,
    ) -> (at: usize)
        requires
            old(self).wf(),
        ensures
            final(self).wf(),
            old(self).consistent() ==> final(self).consistent(),
            at == old(self).refs@.len(),
            final(self).refs@.len() == at + 1,
            final(self).refs@.take(at as int) == old(self).refs@,
            final(self).refs@[at as int].key == key,
            final(self).refs@[at as int].is_signer == is_signer,
            final(self).refs@[at as int].is_writable == is_writable,
            key_absent(old(self).refs@, key@) ==> {
                &&& final(self).refs@[at as int].slot == old(self).balances@.len()
                &&& final(self).balances@ == old(self).balances@.push(lamports)
            },
            forall|first: int|
                first_with_key(old(self).refs@, key@, first) ==> {
                    &&& final(self).refs@[at as int].slot == old(self).refs@[first].slot
                    &&& final(self).balances@ == old(self).balances@
                },
    {
        let at: usize = self.refs.len();
        let mut i: usize = 0;
        let mut found: Option<usize> = None;
        while i < at
            invariant_except_break
                found is None,
                key_absent(self.refs@.take(i as int), key@),
            invariant
                i <= at,
                at == self.refs@.len(),
                *self == *old(self),
            ensures
                match found {
                    Some(first) => first_with_key(self.refs@, key@, first as int),
                    None => key_absent(self.refs@.take(at as int), key@),
                },
            decreases at - i,
        {
            if self.refs[i].key == key {
                found = Some(i);
                break;
            }
            assert(self.refs@.take(i + 1) =~= self.refs@.take(i as int).push(self.refs@[i as int]));
            i += 1;
        }
        assert(self.refs@.take(at as int) =~= self.refs@);
        let slot: usize = match found {
            Some(first) => self.refs[first].slot,
            None => {
                let fresh: usize = self.balances.len();
                self.balances.push(lamports);
                fresh
            },
        };
        self.refs.push(AccountRef { key, slot, is_signer, is_writable });
        proof {
            let before = old(self).refs@;
            let after = self.refs@;
            assert(after.take(at as int) =~= before);
            assert forall|first: int| first_with_key(before, key@, first) implies {
                &&& after[at as int].slot == before[first].slot
                &&& self.balances@ == old(self).balances@
            } by {
                match found {
                    Some(seen) => {
                        if first < seen {
                            assert(before.take(seen as int)[first] == before[first]);
                        } else if seen < first {
                            assert(before.take(first)[seen as int] == before[seen as int]);
                        }
                    },
                    None => {
                        assert(before[first].key@ == key@);
                    },
                }
            }
            if old(self).consistent() {
                assert forall|a: int, b: int|
                    0 <= a < after.len() && 0 <= b < after.len() implies (after[a].key@
                    == after[b].key@ <==> after[a].slot == after[b].slot) by {
                    if a < at {
                        assert(after[a] == before[a]);
                    }
                    if b < at {
                        assert(after[b] == before[b]);
                    }
                    match found {
                        Some(seen) => {
                            assert(after[at as int].slot == before[seen as int].slot);
                            assert(before[seen as int].key@ == key@);
                        },
                        None => {},
                    }
                }
            }
        }
        at
    }
}

} // verus!
