//! Accounts of an instruction, with borrow rules that are checked at run time.
//!
//! The runtime hands a program one run of bytes that holds the accounts of the
//! instruction ([`layout`]). [`Account::from_bytes_ptr`] turns them into accounts
//! one after the other. The bytes move into two parts that a program holds apart:
//!
//! - the headers, with lamports, owner, data length and borrow state, are kept
//!   in [`Accounts`];
//! - the data bytes of an account are an [`AccountData`].
//!
//! Neither part can be copied. A program reads each place in memory once, so that
//! there is one account where there is one in memory: two readings of the same
//! place, from two copies of its bytes, are independent of each other.
//! [`Account::into_bytes`] gives the bytes back, changed as the account is.
//!
//! An [`AccountInfo`] points to an account and can be copied. The borrow state of
//! the account counts the borrows that were granted through any copy: many
//! [`Ref`]s at a time, or one [`RefMut`]. A guard ends its borrow where it is
//! handed back to the accounts, with [`Ref::drop`] or [`RefMut::drop`].
//!
//! [`laws`] states what holds across operations.
pub mod account;
pub mod account_info;
pub mod accounts;
pub mod borrow;
pub mod error;
pub mod guard;
pub mod laws;
pub mod layout;
pub mod pubkey;
pub mod step;

pub use account::{
    Account, AccountData, AccountStatic, DataPtr, ACCOUNT_STATIC_SIZE, MAX_PERMITTED_DATA_INCREASE,
    NON_DUP_MARKER,
};
pub use account_info::AccountInfo;
pub use accounts::Accounts;
pub use borrow::BorrowState;
pub use error::{ProgramError, ProgramResult};
pub use guard::{Ref, RefMut};
pub use layout::AccountFromPtr;
pub use pubkey::Pubkey;
