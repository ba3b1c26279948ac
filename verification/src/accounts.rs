//! The accounts that an instruction works on.
use std::collections::HashMap;

use vstd::prelude::*;

use crate::account::Account;
use crate::account_info::AccountInfo;

verus! {

broadcast use vstd::std_specs::hash::group_hash_axioms;

/// Headers of the accounts of an instruction, each found by the address of the
/// account's data.
///
/// An [`AccountInfo`] points to one of them. Copies of an `AccountInfo` point to
/// the same account, so what is done through one copy is seen through all.
#[derive(Debug)]
pub struct Accounts {
    entries: HashMap<usize, Account>,
}

impl View for Accounts {
    type V = Map<usize, Account>;

    closed spec fn view(&self) -> Map<usize, Account> {
        self.entries@
    }
}

impl Accounts {
    /// Every account is well formed, and found by its own address.
    pub open spec fn wf(self) -> bool {
        forall|address: usize|
            #![trigger self@[address]]
            self@.contains_key(address) ==> {
                &&& self@[address].wf()
                &&& self@[address].data.address == address
            }
    }

    /// No accounts.
    pub fn new() -> (accounts: Self)
        ensures
            accounts@ == Map::<usize, Account>::empty(),
            accounts.wf(),
    {
        Accounts { entries: HashMap::new() }
    }

    /// Adds `account`, which is at an address of its own, and returns a pointer
    /// to it.
    pub fn insert(&mut self, account: Account) -> (info: AccountInfo)
        requires
            old(self).wf(),
            account.wf(),
            !old(self)@.contains_key(account.data.address),
        ensures
            final(self)@ == old(self)@.insert(account.data.address, account),
            final(self).wf(),
            info.ptr() == account.data,
            info.valid_in(*final(self)),
    {
        let info = AccountInfo::to(&account);
        self.entries.insert(account.data.address, account);
        info
    }

    /// Takes out the account that `info` points to.
    pub fn remove(&mut self, info: AccountInfo) -> (account: Account)
        requires
            info.valid_in(*old(self)),
        ensures
            account == info.account(*old(self)),
            final(self)@ == old(self)@.remove(info.ptr().address),
            final(self).wf(),
    {
        self.entries.remove(&info.address()).unwrap()
    }

    /// The account at `address`.
    pub(crate) fn entry(&self, address: usize) -> (account: &Account)
        requires
            self@.contains_key(address),
        ensures
            *account == self@[address],
    {
        self.entries.get(&address).unwrap()
    }

    /// The account at `address`, to be changed in place.
    pub(crate) fn entry_mut(&mut self, address: usize) -> (account: &mut Account)
        requires
            old(self)@.contains_key(address),
        ensures
            *account == old(self)@[address],
            final(self)@ == old(self)@.insert(address, *final(account)),
    {
        // The account goes out and in again, since the entry that it goes into gives
        // the reference.
        let account = self.entries.remove(&address).unwrap();
        self.entries.entry(address).or_insert(account)
    }
}

} // verus!
