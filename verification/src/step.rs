//! What the operations on an account make of its header and its data bytes.
use vstd::prelude::*;

use crate::account::Account;
use crate::borrow;
use crate::borrow::{BorrowState, BorrowStep};
use crate::error::ProgramError;
use crate::pubkey::Pubkey;

verus! {

/// Something that a program does to an account.
pub enum AccountStep {
    /// A borrow is asked for or ends.
    Borrow(BorrowStep),
    /// The lamports are set.
    SetLamports(u64),
    /// The account gets another owner.
    Assign(Pubkey),
    /// The data are resized, unless they are borrowed.
    Resize(usize),
    /// The data are resized, borrowed or not.
    ResizeUnchecked(usize),
    /// The account is closed, unless it is borrowed.
    Close,
    /// The account is closed, borrowed or not.
    CloseUnchecked,
}

/// Outcome of a resize that does not ask whether the data are borrowed.
pub open spec fn resize_unchecked_outcome(account: Account, new_len: usize) -> Result<
    (),
    ProgramError,
> {
    if account.fits(new_len) {
        Ok(())
    } else {
        Err(ProgramError::InvalidRealloc)
    }
}

/// Outcome of a resize.
pub open spec fn resize_outcome(account: Account, new_len: usize) -> Result<(), ProgramError> {
    if borrow::can_lend_mut(account.account.borrow_state) {
        resize_unchecked_outcome(account, new_len)
    } else {
        Err(ProgramError::AccountBorrowFailed)
    }
}

/// Outcome of closing an account.
pub open spec fn close_outcome(account: Account) -> Result<(), ProgramError> {
    if borrow::matches_mask(account.account.borrow_state, BorrowState::Borrowed) {
        Err(ProgramError::AccountBorrowFailed)
    } else {
        Ok(())
    }
}

/// The account that `step` leaves behind. A refused step changes nothing.
pub open spec fn account_after(account: Account, step: AccountStep) -> Account {
    match step {
        AccountStep::Borrow(step) => account.with_borrow_state(
            borrow::state_after(account.account.borrow_state, step),
        ),
        AccountStep::SetLamports(lamports) => account.with_lamports(lamports),
        AccountStep::Assign(owner) => account.with_owner(owner),
        AccountStep::Resize(new_len) => if resize_outcome(account, new_len) is Ok {
            account.with_data_len(new_len as u64)
        } else {
            account
        },
        AccountStep::ResizeUnchecked(new_len) => if resize_unchecked_outcome(
            account,
            new_len,
        ) is Ok {
            account.with_data_len(new_len as u64)
        } else {
            account
        },
        AccountStep::Close => if close_outcome(account) is Ok {
            account.closed()
        } else {
            account
        },
        AccountStep::CloseUnchecked => account.closed(),
    }
}

/// What `step` makes of the `bytes` of the place that is reserved for the data.
/// Only a resize that is granted changes them.
pub open spec fn bytes_after(account: Account, bytes: Seq<u8>, step: AccountStep) -> Seq<u8> {
    match step {
        AccountStep::Resize(new_len) => if resize_outcome(account, new_len) is Ok {
            account.resized_bytes(bytes, new_len)
        } else {
            bytes
        },
        AccountStep::ResizeUnchecked(new_len) => if resize_unchecked_outcome(
            account,
            new_len,
        ) is Ok {
            account.resized_bytes(bytes, new_len)
        } else {
            bytes
        },
        _ => bytes,
    }
}

} // verus!
