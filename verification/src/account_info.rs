//! Data structures to represent account information.
use vstd::prelude::*;

use crate::account;
use crate::account::{
    Account, AccountData, DataPtr, MAX_PERMITTED_DATA_INCREASE, NON_DUP_MARKER,
};
use crate::accounts::Accounts;
use crate::borrow;
use crate::borrow::{BorrowState, BorrowStep};
use crate::error::{ProgramError, ProgramResult};
use crate::guard::{Ref, RefMut};
use crate::pubkey;
use crate::pubkey::Pubkey;
use crate::step;
use crate::step::AccountStep;

verus! {

/// Pointer to one of the [`Accounts`] of an instruction.
///
/// An account can be "shared" across multiple `AccountInfo` instances: copies
/// point to the same account, and the borrow state that the account keeps is
/// the same for all of them. Two pointers are equal exactly if they hold the
/// same address and the same length of the place reserved for the data, whatever
/// accounts they were made for.
///
/// What a method reads or changes, it is given: the headers of the accounts,
/// and, where data bytes matter, the bytes of the account pointed to.
#[derive(Clone, Copy, Debug, PartialEq, Eq, Structural)]
pub struct AccountInfo {
    raw: DataPtr,
}

impl AccountInfo {
    /// Where the data of the account are.
    pub closed spec fn ptr(self) -> DataPtr {
        self.raw
    }

    /// The pointer leads to one of `accounts`.
    pub open spec fn valid_in(self, accounts: Accounts) -> bool {
        &&& accounts.wf()
        &&& accounts@.contains_key(self.ptr().address)
        &&& self.account(accounts).data == self.ptr()
    }

    /// The account pointed to.
    pub open spec fn account(self, accounts: Accounts) -> Account {
        accounts@[self.ptr().address]
    }

    /// Borrow state of the account.
    pub open spec fn borrow_state(self, accounts: Accounts) -> u8 {
        self.account(accounts).account.borrow_state
    }

    /// The bytes `data` are those of the account.
    pub open spec fn owns_data(self, accounts: Accounts, data: AccountData) -> bool {
        data.belongs_to(self.account(accounts))
    }

    /// The accounts after `step` has been taken on the one pointed to. The
    /// others stay as they were.
    pub open spec fn after(self, accounts: Accounts, step: AccountStep) -> Map<usize, Account> {
        accounts@.insert(self.ptr().address, step::account_after(self.account(accounts), step))
    }

    /// A pointer to `account`.
    pub(crate) fn to(account: &Account) -> (info: Self)
        ensures
            info.ptr() == account.data,
    {
        AccountInfo { raw: account.data }
    }

    /// Address of the data of the account.
    pub(crate) fn address(&self) -> (address: usize)
        ensures
            address == self.ptr().address,
    {
        self.raw.address
    }

    /// The account pointed to.
    pub fn raw<'m>(&self, accounts: &'m Accounts) -> (account: &'m Account)
        requires
            self.valid_in(*accounts),
        ensures
            *account == self.account(*accounts),
    {
        accounts.entry(self.raw.address)
    }

    /// Public key of the account.
    pub fn key<'m>(&self, accounts: &'m Accounts) -> (key: &'m Pubkey)
        requires
            self.valid_in(*accounts),
        ensures
            *key == self.account(*accounts).account.key,
    {
        &self.raw(accounts).account.key
    }

    /// Program that owns this account.
    pub fn owner(&self, accounts: &Accounts) -> (owner: Pubkey)
        requires
            self.valid_in(*accounts),
        ensures
            owner == self.account(*accounts).account.owner,
    {
        *self.owner_ref(accounts)
    }

    /// Returns `true` if this account's owner is `other`
    pub fn owner_is(&self, accounts: &Accounts, other: &Pubkey) -> (same: bool)
        requires
            self.valid_in(*accounts),
        ensures
            same == (self.account(*accounts).account.owner == *other),
    {
        let is_other = |x: &Pubkey| -> (same: bool)
            ensures
                same == (*x == *other),
            { pubkey::pubkey_eq(x, other) };
        self.owner_with_fn(accounts, is_other)
    }

    /// Operate on a ref to the program that owns this account.
    pub fn owner_with_fn<T>(&self, accounts: &Accounts, f: impl FnOnce(&Pubkey) -> T) -> (result: T)
        requires
            self.valid_in(*accounts),
            call_requires(f, (&self.account(*accounts).account.owner,)),
        ensures
            call_ensures(f, (&self.account(*accounts).account.owner,), result),
    {
        f(self.owner_ref(accounts))
    }

    /// Program that owns this account.
    ///
    /// [`Self::assign`] cannot be called while the reference is held.
    pub fn owner_ref<'m>(&self, accounts: &'m Accounts) -> (owner: &'m Pubkey)
        requires
            self.valid_in(*accounts),
        ensures
            *owner == self.account(*accounts).account.owner,
    {
        &self.raw(accounts).account.owner
    }

    /// Indicates whether the transaction was signed by this account.
    pub fn is_signer(&self, accounts: &Accounts) -> (signer: bool)
        requires
            self.valid_in(*accounts),
        ensures
            signer == (self.account(*accounts).account.is_signer != 0),
    {
        self.raw(accounts).account.is_signer != 0
    }

    /// Indicates whether the account is writable.
    pub fn is_writable(&self, accounts: &Accounts) -> (writable: bool)
        requires
            self.valid_in(*accounts),
        ensures
            writable == (self.account(*accounts).account.is_writable != 0),
    {
        self.raw(accounts).account.is_writable != 0
    }

    /// Indicates whether this account represents a program.
    ///
    /// Program accounts are always read-only.
    pub fn executable(&self, accounts: &Accounts) -> (executable: bool)
        requires
            self.valid_in(*accounts),
        ensures
            executable == (self.account(*accounts).account.executable != 0),
    {
        self.raw(accounts).account.executable != 0
    }

    /// Returns the size of the data in the account.
    pub fn data_len(&self, accounts: &Accounts) -> (len: usize)
        requires
            self.valid_in(*accounts),
        ensures
            len == self.account(*accounts).account.data_len,
    {
        self.raw(accounts).account.data_len as usize
    }

    /// Returns the delta between the original data length and the current
    /// data length.
    ///
    /// This value will be different from zero if the account has been resized
    /// during the current instruction.
    pub fn resize_delta(&self, accounts: &Accounts) -> (delta: i32)
        requires
            self.valid_in(*accounts),
            i32::MIN <= account::low_i32(self.account(*accounts).data.len) - MAX_PERMITTED_DATA_INCREASE,
            i32::MIN <= self.account(*accounts).delta() <= i32::MAX,
        ensures
            delta == self.account(*accounts).delta(),
    {
        let current_size: i32 = self.data_len(accounts) as i32;
        let data_max_size: i32 = self.raw(accounts).data.len as i32;
        current_size - (data_max_size - MAX_PERMITTED_DATA_INCREASE as i32)
    }

    /// Returns the lamports in the account.
    pub fn lamports(&self, accounts: &Accounts) -> (lamports: u64)
        requires
            self.valid_in(*accounts),
        ensures
            lamports == self.account(*accounts).account.lamports,
    {
        self.raw(accounts).account.lamports
    }

    /// Sets the lamports and returns the old value.
    pub fn set_lamports(&self, accounts: &mut Accounts, lamports: u64) -> (before: u64)
        requires
            self.valid_in(*old(accounts)),
        ensures
            before == self.account(*old(accounts)).account.lamports,
            final(accounts)@ == self.after(*old(accounts), AccountStep::SetLamports(lamports)),
            final(accounts).wf(),
    {
        let account = accounts.entry_mut(self.raw.address);
        let before: u64 = account.account.lamports;
        account.account.lamports = lamports;
        before
    }

    /// Gets the cell that stores the account's lamports.
    pub fn borrow_lamports<'m>(&self, accounts: &'m mut Accounts) -> (lamports: &'m mut u64)
        requires
            self.valid_in(*old(accounts)),
        ensures
            *lamports == self.account(*old(accounts)).account.lamports,
            final(accounts)@ == self.after(
                *old(accounts),
                AccountStep::SetLamports(*final(lamports)),
            ),
            final(accounts).wf(),
    {
        &mut accounts.entry_mut(self.raw.address).account.lamports
    }

    /// Indicates whether the account data is empty.
    ///
    /// An account is considered empty if the data length is zero.
    pub fn data_is_empty(&self, accounts: &Accounts) -> (empty: bool)
        requires
            self.valid_in(*accounts),
        ensures
            empty == (self.account(*accounts).account.data_len == 0),
    {
        self.data_len(accounts) == 0
    }

    /// Checks if the account is owned by the given program.
    pub fn is_owned_by(&self, accounts: &Accounts, program: &Pubkey) -> (owned: bool)
        requires
            self.valid_in(*accounts),
        ensures
            owned == (self.account(*accounts).account.owner == *program),
    {
        pubkey::pubkey_eq(self.owner_ref(accounts), program)
    }

    /// Changes the owner of the account.
    pub fn assign(&self, accounts: &mut Accounts, new_owner: &Pubkey)
        requires
            self.valid_in(*old(accounts)),
        ensures
            final(accounts)@ == self.after(*old(accounts), AccountStep::Assign(*new_owner)),
            final(accounts).wf(),
    {
        accounts.entry_mut(self.raw.address).account.owner = *new_owner;
    }

    /// Return true if the account borrow state is set to the given state.
    ///
    /// This will test both data and lamports borrow state.
    pub fn is_borrowed(&self, accounts: &Accounts, state: BorrowState) -> (borrowed: bool)
        requires
            self.valid_in(*accounts),
        ensures
            borrowed == borrow::matches_mask(self.borrow_state(*accounts), state),
    {
        let borrow_state: u8 = self.raw(accounts).account.borrow_state;
        match state {
            BorrowState::ImmutablyBorrowed => borrow_state < NON_DUP_MARKER && borrow_state > 0,
            BorrowState::Borrowed => borrow_state < NON_DUP_MARKER,
            BorrowState::MutablyBorrowed => borrow_state == 0,
        }
    }

    /// Returns a read-only reference to the data in the account.
    ///
    /// This leaves the borrow state untouched, whatever it is.
    pub fn borrow_data_unchecked<'a>(&self, accounts: &Accounts, data: &'a AccountData) -> (bytes:
        &'a [u8])
        requires
            self.valid_in(*accounts),
            self.owns_data(*accounts, *data),
        ensures
            bytes@ == self.account(*accounts).data_in(data@),
    {
        data.leading(self.data_len(accounts))
    }

    /// Returns a mutable reference to the data in the account.
    ///
    /// This leaves the borrow state untouched, whatever it is.
    pub fn borrow_mut_data_unchecked<'a>(
        &self,
        accounts: &Accounts,
        data: &'a mut AccountData,
    ) -> (bytes: &'a mut [u8])
        requires
            self.valid_in(*accounts),
            self.owns_data(*accounts, *old(data)),
        ensures
            bytes@ == self.account(*accounts).data_in(old(data)@),
            final(data)@ == final(bytes)@ + self.account(*accounts).margin_in(old(data)@),
            final(data).ptr() == old(data).ptr(),
    {
        data.leading_mut(self.data_len(accounts))
    }

    /// Tries to get a read-only reference to the data field, failing if the field
    /// is already mutable borrowed or if `254` borrows already exist.
    pub fn try_borrow_data<'a>(&self, accounts: &mut Accounts, data: &'a AccountData) -> (borrowed:
        Result<Ref<'a, [u8]>, ProgramError>)
        requires
            self.valid_in(*old(accounts)),
            self.owns_data(*old(accounts), *data),
        ensures
            final(accounts).wf(),
            final(accounts)@ == self.after(
                *old(accounts),
                AccountStep::Borrow(BorrowStep::Borrow),
            ),
            match borrowed {
                Ok(guard) => {
                    &&& borrow::can_share(self.borrow_state(*old(accounts)))
                    &&& guard.value()@ == self.account(*old(accounts)).data_in(data@)
                    &&& guard.state() == *self
                },
                Err(e) => {
                    &&& !borrow::can_share(self.borrow_state(*old(accounts)))
                    &&& e == ProgramError::AccountBorrowFailed
                    &&& final(accounts)@ == old(accounts)@
                },
            },
    {
        if let Err(e) = self.can_borrow_data(accounts) {
            return Err(e);
        }
        let bytes = self.borrow_data_unchecked(accounts, data);
        let account = accounts.entry_mut(self.raw.address);
        account.account.borrow_state = account.account.borrow_state - 1;
        Ok(Ref::new(bytes, *self))
    }

    /// Tries to get a mutable reference to the data field, failing if the field
    /// is already borrowed in any form.
    pub fn try_borrow_mut_data<'a>(
        &self,
        accounts: &mut Accounts,
        data: &'a mut AccountData,
    ) -> (borrowed: Result<RefMut<'a, [u8]>, ProgramError>)
        requires
            self.valid_in(*old(accounts)),
            self.owns_data(*old(accounts), *old(data)),
        ensures
            final(accounts).wf(),
            final(accounts)@ == self.after(
                *old(accounts),
                AccountStep::Borrow(BorrowStep::BorrowMut),
            ),
            match borrowed {
                Ok(guard) => {
                    &&& borrow::can_lend_mut(self.borrow_state(*old(accounts)))
                    &&& guard.place()@ == self.account(*old(accounts)).data_in(old(data)@)
                    &&& final(data)@ == final(guard.place())@ + self.account(
                        *old(accounts),
                    ).margin_in(old(data)@)
                    &&& final(data).ptr() == old(data).ptr()
                    &&& guard.state() == *self
                },
                Err(e) => {
                    &&& !borrow::can_lend_mut(self.borrow_state(*old(accounts)))
                    &&& e == ProgramError::AccountBorrowFailed
                    &&& final(accounts)@ == old(accounts)@
                    &&& *final(data) == *old(data)
                },
            },
    {
        if let Err(e) = self.can_borrow_mut_data(accounts) {
            return Err(e);
        }
        let bytes = self.borrow_mut_data_unchecked(accounts, data);
        accounts.entry_mut(self.raw.address).account.borrow_state = 0;
        Ok(RefMut::new(bytes, *self))
    }

    /// Checks if it is possible to get a read-only reference to the data field, failing
    /// if the field is already mutable borrowed or if 254 borrows already exist.
    ///
    /// Prefer [`Self::can_borrow_data`].
    pub fn check_borrow_data(&self, accounts: &Accounts) -> (checked: Result<(), ProgramError>)
        requires
            self.valid_in(*accounts),
        ensures
            checked == borrow::share_check(self.borrow_state(*accounts)),
    {
        self.can_borrow_data(accounts)
    }

    /// Checks if it is possible to get a read-only reference to the data field, failing
    /// if the field is already mutable borrowed or if 254 borrows already exist.
    pub fn can_borrow_data(&self, accounts: &Accounts) -> (checked: Result<(), ProgramError>)
        requires
            self.valid_in(*accounts),
        ensures
            checked == borrow::share_check(self.borrow_state(*accounts)),
    {
        let borrow_state: u8 = self.raw(accounts).account.borrow_state;
        if borrow_state <= 1 {
            return Err(ProgramError::AccountBorrowFailed);
        }
        Ok(())
    }

    /// Checks if it is possible to get a mutable reference to the data field, failing
    /// if the field is already borrowed in any form.
    ///
    /// Prefer [`Self::can_borrow_mut_data`].
    pub fn check_borrow_mut_data(&self, accounts: &Accounts) -> (checked: Result<(), ProgramError>)
        requires
            self.valid_in(*accounts),
        ensures
            checked == borrow::lend_mut_check(self.borrow_state(*accounts)),
    {
        self.can_borrow_mut_data(accounts)
    }

    /// Checks if it is possible to get a mutable reference to the data field, failing
    /// if the field is already borrowed in any form.
    pub fn can_borrow_mut_data(&self, accounts: &Accounts) -> (checked: Result<(), ProgramError>)
        requires
            self.valid_in(*accounts),
        ensures
            checked == borrow::lend_mut_check(self.borrow_state(*accounts)),
    {
        let borrow_state: u8 = self.raw(accounts).account.borrow_state;
        if borrow_state != NON_DUP_MARKER {
            return Err(ProgramError::AccountBorrowFailed);
        }
        Ok(())
    }

    /// Realloc (either truncating or zero extending) the account's data.
    ///
    /// The account data can be increased by up to [`MAX_PERMITTED_DATA_INCREASE`] bytes
    /// within an instruction.
    ///
    /// The `zero_init` parameter is ignored: bytes that the data grow by are
    /// always zero. Prefer [`Self::resize`].
    pub fn realloc(
        &self,
        accounts: &mut Accounts,
        data: &mut AccountData,
        new_len: usize,
        _zero_init: bool,
    ) -> (resized: Result<(), ProgramError>)
        requires
            self.valid_in(*old(accounts)),
            self.owns_data(*old(accounts), *old(data)),
        ensures
            resized == step::resize_outcome(self.account(*old(accounts)), new_len),
            final(accounts).wf(),
            final(accounts)@ == self.after(*old(accounts), AccountStep::Resize(new_len)),
            final(data)@ == step::bytes_after(
                self.account(*old(accounts)),
                old(data)@,
                AccountStep::Resize(new_len),
            ),
            final(data).ptr() == old(data).ptr(),
            resized is Err ==> *final(accounts) == *old(accounts) && *final(data) == *old(data),
    {
        self.resize(accounts, data, new_len)
    }

    /// Resize (either truncating or zero extending) the account's data.
    ///
    /// The account data can be increased by up to [`MAX_PERMITTED_DATA_INCREASE`] bytes
    /// within an instruction.
    pub fn resize(&self, accounts: &mut Accounts, data: &mut AccountData, new_len: usize) -> (resized:
        Result<(), ProgramError>)
        requires
            self.valid_in(*old(accounts)),
            self.owns_data(*old(accounts), *old(data)),
        ensures
            resized == step::resize_outcome(self.account(*old(accounts)), new_len),
            final(accounts).wf(),
            final(accounts)@ == self.after(*old(accounts), AccountStep::Resize(new_len)),
            final(data)@ == step::bytes_after(
                self.account(*old(accounts)),
                old(data)@,
                AccountStep::Resize(new_len),
            ),
            final(data).ptr() == old(data).ptr(),
            resized is Err ==> *final(accounts) == *old(accounts) && *final(data) == *old(data),
    {
        // Check whether the account data is already borrowed.
        if let Err(e) = self.can_borrow_mut_data(accounts) {
            return Err(e);
        }
        self.resize_unchecked(accounts, data, new_len)
    }

    /// Resize (either truncating or zero extending) the account's data.
    ///
    /// The account data can be increased by up to [`MAX_PERMITTED_DATA_INCREASE`] bytes
    ///
    /// This does not check if the account data is already borrowed.
    pub fn resize_unchecked(
        &self,
        accounts: &mut Accounts,
        data: &mut AccountData,
        new_len: usize,
    ) -> (resized: Result<(), ProgramError>)
        requires
            self.valid_in(*old(accounts)),
            self.owns_data(*old(accounts), *old(data)),
        ensures
            resized == step::resize_unchecked_outcome(self.account(*old(accounts)), new_len),
            final(accounts).wf(),
            final(accounts)@ == self.after(*old(accounts), AccountStep::ResizeUnchecked(new_len)),
            final(data)@ == step::bytes_after(
                self.account(*old(accounts)),
                old(data)@,
                AccountStep::ResizeUnchecked(new_len),
            ),
            final(data).ptr() == old(data).ptr(),
            resized is Err ==> *final(accounts) == *old(accounts) && *final(data) == *old(data),
    {
        let current_len: usize = self.data_len(accounts);
        let ghost account = self.account(*accounts);

        // Return early if length hasn't changed.
        if new_len == current_len {
            assert(self.after(*accounts, AccountStep::ResizeUnchecked(new_len)) =~= accounts@);
            assert(account.resized_bytes(data@, new_len) =~= data@);
            return Ok(());
        }
        // Return an error when the length increase from the original serialized data
        // length is too large and would result in an out of bounds allocation

        if new_len > self.raw(accounts).data.len {
            return Err(ProgramError::InvalidRealloc);
        }
        accounts.entry_mut(self.raw.address).account.data_len = new_len as u64;

        if new_len > current_len {
            data.zero(current_len, new_len);
        }
        assert(data@ =~= account.resized_bytes(old(data)@, new_len));
        Ok(())
    }

    /// Zero out the the account's data length, lamports and owner fields, effectively
    /// closing the account.
    ///
    /// Note: This does not zero the account data. The account data will be zeroed by
    /// the runtime at the end of the instruction where the account was closed or at the
    /// next CPI call.
    ///
    /// # Important
    ///
    /// The lamports must be moved from the account prior to closing it to prevent
    /// an unbalanced instruction error.
    pub fn close(&self, accounts: &mut Accounts) -> (result: ProgramResult)
        requires
            self.valid_in(*old(accounts)),
        ensures
            final(accounts).wf(),
            result == step::close_outcome(self.account(*old(accounts))),
            final(accounts)@ == self.after(*old(accounts), AccountStep::Close),
            result is Err ==> *final(accounts) == *old(accounts),
    {
        // make sure the account is not borrowed since we are about to
        // resize the data to zero
        if self.is_borrowed(accounts, BorrowState::Borrowed) {
            return Err(ProgramError::AccountBorrowFailed);
        }
        self.close_unchecked(accounts);

        Ok(())
    }

    /// Zero out the the account's data length, lamports and owner fields, effectively
    /// closing the account.
    ///
    /// Note: This does not zero the account data. The account data will be zeroed by
    /// the runtime at the end of the instruction where the account was closed or at the
    /// next CPI call.
    ///
    /// # Important
    ///
    /// The lamports must be moved from the account prior to closing it to prevent
    /// an unbalanced instruction error.
    ///
    /// If [`Self::realloc`] or [`Self::resize`] are called after closing the account,
    /// they might incorrectly return an error for going over the limit if the account
    /// previously had space allocated since this method does not update the
    /// [`Self::resize_delta`] value.
    ///
    /// This does not check if the account data is already borrowed.
    pub fn close_unchecked(&self, accounts: &mut Accounts)
        requires
            self.valid_in(*old(accounts)),
        ensures
            final(accounts).wf(),
            final(accounts)@ == self.after(*old(accounts), AccountStep::CloseUnchecked),
    {
        let account = accounts.entry_mut(self.raw.address);
        account.account.owner = [0u8;32];
        account.account.lamports = 0;
        account.account.data_len = 0;
    }

    /// Returns the memory address of the account data.
    pub fn data_ptr(&self, accounts: &Accounts) -> (ptr: DataPtr)
        requires
            self.valid_in(*accounts),
        ensures
            ptr.address == self.account(*accounts).data.address,
            ptr.len == self.account(*accounts).account.data_len,
    {
        DataPtr { address: self.raw(accounts).data.address, len: self.data_len(accounts) }
    }
}

/// Two pointers are equal exactly if they hold the same address and length.
pub proof fn law_equal_pointers(a: AccountInfo, b: AccountInfo)
    ensures
        a == b <==> a.ptr() == b.ptr(),
{
}

} // verus!
