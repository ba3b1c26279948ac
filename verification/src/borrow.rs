//! The borrow state of an account: one byte that says what may still be lent.
//!
//! An account that nobody borrows has the state [`NON_DUP_MARKER`]. Each
//! immutable borrow takes one away, down to a floor of one, and gives it back
//! when it ends. A mutable borrow sets the state to zero.
use vstd::prelude::*;

use crate::account::NON_DUP_MARKER;
use crate::error::ProgramError;

verus! {

/// Represents masks for borrow state of an account.
#[derive(Clone, Copy, Debug, PartialEq, Eq, Structural)]
pub enum BorrowState {
    /// Immutably borrowed.
    ImmutablyBorrowed,
    /// Either immutably or mutably borrowed.
    Borrowed,
    /// Mutably borrowed.
    MutablyBorrowed,
}

/// Whether an account in state `state` can be borrowed immutably.
pub open spec fn can_share(state: u8) -> bool {
    state > 1
}

/// Whether an account in state `state` can be borrowed mutably.
pub open spec fn can_lend_mut(state: u8) -> bool {
    state == NON_DUP_MARKER
}

/// Outcome of asking whether an immutable borrow is possible.
pub open spec fn share_check(state: u8) -> Result<(), ProgramError> {
    if can_share(state) {
        Ok(())
    } else {
        Err(ProgramError::AccountBorrowFailed)
    }
}

/// Outcome of asking whether a mutable borrow is possible.
pub open spec fn lend_mut_check(state: u8) -> Result<(), ProgramError> {
    if can_lend_mut(state) {
        Ok(())
    } else {
        Err(ProgramError::AccountBorrowFailed)
    }
}

/// Whether `mask` covers the state `state`.
pub open spec fn matches_mask(state: u8, mask: BorrowState) -> bool {
    match mask {
        BorrowState::ImmutablyBorrowed => 0 < state < NON_DUP_MARKER,
        BorrowState::Borrowed => state < NON_DUP_MARKER,
        BorrowState::MutablyBorrowed => state == 0,
    }
}

/// Something that changes the borrow state of an account.
pub enum BorrowStep {
    /// An immutable borrow is asked for.
    Borrow,
    /// A mutable borrow is asked for.
    BorrowMut,
    /// An immutable borrow ends.
    Drop,
    /// A mutable borrow ends.
    DropMut,
}

/// Borrow state that `step` leaves behind. A refused request changes nothing.
pub open spec fn state_after(state: u8, step: BorrowStep) -> u8 {
    match step {
        BorrowStep::Borrow => if can_share(state) {
            (state - 1) as u8
        } else {
            state
        },
        BorrowStep::BorrowMut => if can_lend_mut(state) {
            0
        } else {
            state
        },
        BorrowStep::Drop => (state + 1) as u8,
        BorrowStep::DropMut => NON_DUP_MARKER,
    }
}

} // verus!
