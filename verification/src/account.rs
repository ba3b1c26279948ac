//! An account: its header, and the bytes of its data.
//!
//! Neither can be copied. There is one of each for each account in memory as long
//! as every place in memory is read once, which is up to the program.
use std::ops::Deref;

use vstd::prelude::*;

use crate::pubkey;
use crate::pubkey::Pubkey;

verus! {

/// Maximum number of bytes a program may add to an account during a
/// single top-level instruction.
pub const MAX_PERMITTED_DATA_INCREASE: usize = 1_024 * 10;

/// First byte of a serialized account that does not repeat an earlier one.
/// The same value marks an account without outstanding borrows.
pub const NON_DUP_MARKER: u8 = 255;

/// Number of bytes that precede the data of a serialized account:
/// the borrow state, the three flags, four bytes of padding, the key, the
/// owner, the lamports and the data length.
pub const ACCOUNT_STATIC_SIZE: usize = 88;

/// The part of an account that has a fixed size.
#[derive(Debug)]
pub struct AccountStatic {
    /// Borrow state for lamports and account data.
    ///
    /// - `if > 1` can be borrowed immutably
    /// - `if == u8::MAX` can be borrowed mutably
    /// - `if == 0` borrowed mutably
    pub borrow_state: u8,
    /// Indicates whether the transaction was signed by this account.
    pub is_signer: u8,
    /// Indicates whether the account is writable.
    pub is_writable: u8,
    /// Indicates whether this account represents a program.
    pub executable: u8,
    /// The runtime guarantees that this value is zero at the start of the instruction.
    pub padding: [u8; 4],
    /// Public key of the account.
    pub key: Pubkey,
    /// Program that owns this account. Modifiable by programs.
    pub owner: Pubkey,
    /// The lamports in the account. Modifiable by programs.
    pub lamports: u64,
    /// Length of the data. Modifiable by programs.
    pub data_len: u64,
}

/// Address and length of a run of account data bytes.
#[derive(Clone, Copy, Debug, PartialEq, Eq, Structural)]
pub struct DataPtr {
    /// Address of the first byte.
    pub address: usize,
    /// Number of bytes.
    pub len: usize,
}

/// Account header, together with the place that is reserved for its data.
#[derive(Debug)]
pub struct Account {
    /// Fixed-size fields.
    pub account: AccountStatic,
    /// Bytes reserved for the data: the length that the data had in the input,
    /// plus [`MAX_PERMITTED_DATA_INCREASE`].
    pub data: DataPtr,
}

/// Bytes of the place that is reserved for the data of one account.
///
/// The account's data are the leading `data_len` bytes.
#[derive(Debug)]
pub struct AccountData {
    ptr: DataPtr,
    bytes: Vec<u8>,
}

/// `n` as a 32-bit signed number, higher bits left out.
pub open spec fn low_i32(n: usize) -> int {
    (n as i32) as int
}

impl DataPtr {
    /// Number of data bytes that the account had in the input.
    pub open spec fn original_len(self) -> int {
        self.len - MAX_PERMITTED_DATA_INCREASE
    }
}

impl Account {
    /// The data lie within the reserved place, which has the full growth margin.
    pub open spec fn wf(self) -> bool {
        &&& self.account.data_len <= self.data.len
        &&& MAX_PERMITTED_DATA_INCREASE <= self.data.len
    }

    /// The account with another borrow state.
    pub open spec fn with_borrow_state(self, borrow_state: u8) -> Account {
        Account { account: AccountStatic { borrow_state, ..self.account }, ..self }
    }

    /// The account with another owner.
    pub open spec fn with_owner(self, owner: Pubkey) -> Account {
        Account { account: AccountStatic { owner, ..self.account }, ..self }
    }

    /// The account with other lamports.
    pub open spec fn with_lamports(self, lamports: u64) -> Account {
        Account { account: AccountStatic { lamports, ..self.account }, ..self }
    }

    /// The account with another data length.
    pub open spec fn with_data_len(self, data_len: u64) -> Account {
        Account { account: AccountStatic { data_len, ..self.account }, ..self }
    }

    /// The account with its owner, its lamports and its data length zeroed.
    pub open spec fn closed(self) -> Account {
        self.with_owner(pubkey::zero_pubkey()).with_lamports(0).with_data_len(0)
    }

    /// Whether `len` data bytes fit the reserved place.
    pub open spec fn fits(self, len: usize) -> bool {
        len <= self.data.len
    }

    /// The account's data, out of all `bytes` of the reserved place.
    pub open spec fn data_in(self, bytes: Seq<u8>) -> Seq<u8> {
        bytes.subrange(0, self.account.data_len as int)
    }

    /// What follows the account's data, out of all `bytes` of the reserved place.
    pub open spec fn margin_in(self, bytes: Seq<u8>) -> Seq<u8> {
        bytes.subrange(self.account.data_len as int, bytes.len() as int)
    }

    /// The bytes of the reserved place after the data length has become
    /// `new_len`: zero where the data have grown, and otherwise as they were.
    pub open spec fn resized_bytes(self, bytes: Seq<u8>, new_len: usize) -> Seq<u8> {
        Seq::new(
            bytes.len(),
            |i: int|
                if self.account.data_len <= i < new_len {
                    0u8
                } else {
                    bytes[i]
                },
        )
    }

    /// Current data length minus the original one, as 32-bit numbers.
    pub open spec fn delta(self) -> int {
        low_i32(self.account.data_len as usize) - (low_i32(self.data.len)
            - MAX_PERMITTED_DATA_INCREASE)
    }
}

impl Deref for Account {
    type Target = AccountStatic;

    fn deref(&self) -> (header: &AccountStatic)
        ensures
            *header == self.account,
    {
        &self.account
    }
}

impl View for AccountData {
    type V = Seq<u8>;

    closed spec fn view(&self) -> Seq<u8> {
        self.bytes@
    }
}

impl AccountData {
    /// Which place the bytes stand for.
    pub closed spec fn ptr(self) -> DataPtr {
        self.ptr
    }

    /// The bytes were read from the place that is reserved for the data of
    /// `account`, and are as many.
    ///
    /// This compares place and length, and not what the bytes hold: two readings
    /// of one place both belong to the account there.
    pub open spec fn belongs_to(self, account: Account) -> bool {
        &&& self.ptr() == account.data
        &&& self@.len() == account.data.len
    }

    /// The bytes of the place `ptr`.
    pub(crate) fn new(ptr: DataPtr, bytes: Vec<u8>) -> (data: Self)
        ensures
            data@ == bytes@,
            data.ptr() == ptr,
    {
        AccountData { ptr, bytes }
    }

    /// The bytes alone.
    pub(crate) fn into_vec(self) -> (bytes: Vec<u8>)
        ensures
            bytes@ == self@,
    {
        self.bytes
    }

    /// The first `len` bytes.
    pub(crate) fn leading(&self, len: usize) -> (bytes: &[u8])
        requires
            len <= self@.len(),
        ensures
            bytes@ == self@.subrange(0, len as int),
    {
        vstd::slice::slice_subrange(self.bytes.as_slice(), 0, len)
    }

    /// The first `len` bytes, to be changed in place.
    pub(crate) fn leading_mut(&mut self, len: usize) -> (bytes: &mut [u8])
        requires
            len <= old(self)@.len(),
        ensures
            bytes@ == old(self)@.subrange(0, len as int),
            final(self)@ == final(bytes)@ + old(self)@.subrange(len as int, old(self)@.len() as int),
            final(self).ptr() == old(self).ptr(),
    {
        self.bytes.as_mut_slice().split_at_mut(len).0
    }

    /// Sets the bytes from `from` up to `to`, which is left out, to zero.
    pub(crate) fn zero(&mut self, from: usize, to: usize)
        requires
            from <= to <= old(self)@.len(),
        ensures
            final(self)@ == Seq::new(
                old(self)@.len(),
                |i: int|
                    if from <= i < to {
                        0u8
                    } else {
                        old(self)@[i]
                    },
            ),
            final(self).ptr() == old(self).ptr(),
    {
        let ghost before = self@;
        let mut i: usize = from;
        while i < to
            invariant
                from <= i <= to <= self@.len(),
                self@.len() == before.len(),
                forall|j: int|
                    0 <= j < self@.len() ==> self@[j] == if from <= j < i {
                        0u8
                    } else {
                        before[j]
                    },
                self.ptr == old(self).ptr,
            decreases to - i,
        {
            self.bytes[i] = 0;
            i += 1;
        }
        assert(self@ =~= Seq::new(
            before.len(),
            |i: int|
                if from <= i < to {
                    0u8
                } else {
                    before[i]
                },
        ));
    }
}

} // verus!
