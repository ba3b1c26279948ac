//! Errors that account operations report.
use vstd::prelude::*;

verus! {

/// Reasons why a program refuses an operation on an account.
#[derive(Clone, Copy, Debug, PartialEq, Eq, Structural)]
pub enum ProgramError {
    /// The account data is borrowed in a way that rules the operation out.
    AccountBorrowFailed,
    /// The account data cannot grow to the requested length.
    InvalidRealloc,
}

/// Outcome of an operation that returns no value.
pub type ProgramResult = Result<(), ProgramError>;

} // verus!
