//! How the runtime lays accounts out in memory.
//!
//! | offset | bytes | field                      |
//! |--------|-------|----------------------------|
//! | 0      | 1     | borrow state               |
//! | 1      | 1     | signer flag                |
//! | 2      | 1     | writable flag              |
//! | 3      | 1     | executable flag            |
//! | 4      | 4     | padding                    |
//! | 8      | 32    | key                        |
//! | 40     | 32    | owner                      |
//! | 72     | 8     | lamports, little endian    |
//! | 80     | 8     | data length, little endian |
//! | 88     |       | data, and room for growth  |
//!
//! Bytes that have become an account are moved into it, and are given back by
//! [`Account::into_bytes`] with what the program has made of them. The caller
//! reads each place in memory once until its bytes have been given back.
use vstd::prelude::*;

use crate::account::{
    Account, AccountData, AccountStatic, DataPtr, ACCOUNT_STATIC_SIZE, MAX_PERMITTED_DATA_INCREASE,
    NON_DUP_MARKER,
};
use crate::pubkey::Pubkey;

verus! {

/// What one entry of the input stands for.
#[derive(Debug)]
pub enum AccountFromPtr {
    /// The same account as the one at position `index`, and the bytes as they
    /// were.
    Cloned { index: u8, bytes: Vec<u8> },
    /// An account, its data bytes, how many bytes of input they take, and the
    /// bytes that follow.
    Account { account: Account, data: AccountData, offset: usize, rest: Vec<u8> },
}

/// The unsigned number that eight bytes of `s`, from `at` on, hold, least
/// significant byte first.
pub open spec fn le_u64(s: Seq<u8>, at: int) -> int {
    s[at] + s[at + 1] * 0x100 + s[at + 2] * 0x1_0000 + s[at + 3] * 0x100_0000 + s[at + 4]
        * 0x1_0000_0000 + s[at + 5] * 0x100_0000_0000 + s[at + 6] * 0x1_0000_0000_0000 + s[at + 7]
        * 0x100_0000_0000_0000
}

/// Whether `header` holds the fields that `bytes` begin with.
pub open spec fn header_in(bytes: Seq<u8>, header: AccountStatic) -> bool {
    &&& header.borrow_state == bytes[0]
    &&& header.is_signer == bytes[1]
    &&& header.is_writable == bytes[2]
    &&& header.executable == bytes[3]
    &&& header.padding@ == bytes.subrange(4, 8)
    &&& header.key@ == bytes.subrange(8, 40)
    &&& header.owner@ == bytes.subrange(40, 72)
    &&& header.lamports == le_u64(bytes, 72)
    &&& header.data_len == le_u64(bytes, 80)
}

/// Whether `bytes` begin with a whole account: its fixed-size part, its data,
/// and the room that the data may grow into.
pub open spec fn holds_account(bytes: Seq<u8>) -> bool {
    &&& ACCOUNT_STATIC_SIZE <= bytes.len()
    &&& ACCOUNT_STATIC_SIZE + le_u64(bytes, 80) + MAX_PERMITTED_DATA_INCREASE <= bytes.len()
}

/// Whether `account` and `data` are what `bytes`, which are at `address`, begin
/// with, over `offset` bytes, and `rest` is what follows.
pub open spec fn parsed(
    bytes: Seq<u8>,
    address: int,
    account: Account,
    data: AccountData,
    offset: int,
    rest: Seq<u8>,
) -> bool {
    &&& offset == ACCOUNT_STATIC_SIZE + MAX_PERMITTED_DATA_INCREASE + account.account.data_len
    &&& offset <= bytes.len()
    &&& account.wf()
    &&& header_in(bytes, account.account)
    &&& account.data.address == address + ACCOUNT_STATIC_SIZE
    &&& account.data.original_len() == account.account.data_len
    &&& data.belongs_to(account)
    &&& data@ == bytes.subrange(ACCOUNT_STATIC_SIZE as int, offset)
    &&& rest == bytes.subrange(offset, bytes.len() as int)
}

fn read_u64(bytes: &[u8], at: usize) -> (n: u64)
    requires
        at + 8 <= bytes@.len(),
    ensures
        n == le_u64(bytes@, at as int),
{
    bytes[at] as u64 + bytes[at + 1] as u64 * 0x100 + bytes[at + 2] as u64 * 0x1_0000 + bytes[at
        + 3] as u64 * 0x100_0000 + bytes[at + 4] as u64 * 0x1_0000_0000 + bytes[at + 5] as u64
        * 0x100_0000_0000 + bytes[at + 6] as u64 * 0x1_0000_0000_0000 + bytes[at + 7] as u64
        * 0x100_0000_0000_0000
}

fn read_pubkey(bytes: &[u8], at: usize) -> (key: Pubkey)
    requires
        at + 32 <= bytes@.len(),
    ensures
        key@ == bytes@.subrange(at as int, at + 32),
{
    let mut key: Pubkey = [0u8;32];
    let mut i: usize = 0;
    while i < 32
        invariant
            i <= 32,
            at + 32 <= bytes.len(),
            forall|j: int| 0 <= j < i ==> key@[j] == bytes@[at + j],
        decreases 32 - i,
    {
        key[i] = bytes[at + i];
        i += 1;
    }
    assert(key@ =~= bytes@.subrange(at as int, at + 32));
    key
}

/// Appends the eight bytes of `n`, least significant byte first.
fn push_u64(bytes: &mut Vec<u8>, n: u64)
    ensures
        final(bytes)@.len() == old(bytes)@.len() + 8,
        final(bytes)@.subrange(0, old(bytes)@.len() as int) == old(bytes)@,
        le_u64(final(bytes)@, old(bytes)@.len() as int) == n,
{
    let n1: u64 = n / 0x100;
    let n2: u64 = n1 / 0x100;
    let n3: u64 = n2 / 0x100;
    let n4: u64 = n3 / 0x100;
    let n5: u64 = n4 / 0x100;
    let n6: u64 = n5 / 0x100;
    let n7: u64 = n6 / 0x100;
    bytes.push((n % 0x100) as u8);
    bytes.push((n1 % 0x100) as u8);
    bytes.push((n2 % 0x100) as u8);
    bytes.push((n3 % 0x100) as u8);
    bytes.push((n4 % 0x100) as u8);
    bytes.push((n5 % 0x100) as u8);
    bytes.push((n6 % 0x100) as u8);
    bytes.push(n7 as u8);
    assert(bytes@.subrange(0, old(bytes)@.len() as int) =~= old(bytes)@);
}

/// Appends `more`.
fn push_bytes(bytes: &mut Vec<u8>, more: &[u8])
    ensures
        final(bytes)@ == old(bytes)@ + more@,
{
    let ghost before = bytes@;
    let mut i: usize = 0;
    while i < more.len()
        invariant
            i <= more@.len(),
            bytes@ == before + more@.subrange(0, i as int),
        decreases more@.len() - i,
    {
        bytes.push(more[i]);
        i += 1;
        assert(bytes@ =~= before + more@.subrange(0, i as int));
    }
    assert(bytes@ =~= before + more@);
}

impl Account {
    /// Reads the entry that `bytes` begin with. `address` is where the bytes are
    /// in memory.
    ///
    /// An entry whose first byte differs from [`NON_DUP_MARKER`] only names the
    /// position of an earlier account.
    pub fn from_bytes_ptr(bytes: Vec<u8>, address: usize) -> (entry: AccountFromPtr)
        requires
            0 < bytes@.len(),
            address + bytes@.len() <= usize::MAX,
            bytes@[0] == NON_DUP_MARKER ==> holds_account(bytes@),
        ensures
            match entry {
                AccountFromPtr::Cloned { index, bytes: same } => {
                    &&& index == bytes@[0]
                    &&& index != NON_DUP_MARKER
                    &&& same@ == bytes@
                },
                AccountFromPtr::Account { account, data, offset, rest } => {
                    &&& bytes@[0] == NON_DUP_MARKER
                    &&& parsed(bytes@, address as int, account, data, offset as int, rest@)
                },
            },
    {
        if bytes[0] != NON_DUP_MARKER {
            AccountFromPtr::Cloned { index: bytes[0], bytes }
        } else {
            let (account, data, offset, rest) = Self::from_bytes_ptr_not_cloned(bytes, address);
            AccountFromPtr::Account { account, data, offset, rest }
        }
    }

    /// Reads the account that `bytes` begin with, whatever the first byte is.
    /// `address` is where the bytes are in memory.
    ///
    /// The third component is the number of bytes that the account takes, the
    /// last one what follows it.
    pub fn from_bytes_ptr_not_cloned(bytes: Vec<u8>, address: usize) -> (parts: (
        Account,
        AccountData,
        usize,
        Vec<u8>,
    ))
        requires
            address + bytes@.len() <= usize::MAX,
            holds_account(bytes@),
        ensures
            parsed(bytes@, address as int, parts.0, parts.1, parts.2 as int, parts.3@),
    {
        let ghost before = bytes@;
        let mut header = bytes;
        let mut place = header.split_off(ACCOUNT_STATIC_SIZE);
        let account = AccountStatic {
            borrow_state: header[0],
            is_signer: header[1],
            is_writable: header[2],
            executable: header[3],
            padding: [header[4], header[5], header[6], header[7]],
            key: read_pubkey(header.as_slice(), 8),
            owner: read_pubkey(header.as_slice(), 40),
            lamports: read_u64(header.as_slice(), 72),
            data_len: read_u64(header.as_slice(), 80),
        };
        proof {
            assert(account.padding@ =~= before.subrange(4, 8));
            assert(account.key@ =~= before.subrange(8, 40));
            assert(account.owner@ =~= before.subrange(40, 72));
        }
        let data_len: usize = account.data_len as usize;
        let offset: usize = ACCOUNT_STATIC_SIZE + MAX_PERMITTED_DATA_INCREASE + data_len;
        let ptr = DataPtr {
            address: address + ACCOUNT_STATIC_SIZE,
            len: data_len + MAX_PERMITTED_DATA_INCREASE,
        };
        let rest = place.split_off(ptr.len);
        proof {
            assert(place@ =~= before.subrange(ACCOUNT_STATIC_SIZE as int, offset as int));
            assert(rest@ =~= before.subrange(offset as int, before.len() as int));
        }
        (Account { account, data: ptr }, AccountData::new(ptr, place), offset, rest)
    }

    /// Gives back the bytes that the account was made of, with everything that
    /// has been changed since.
    pub fn into_bytes(self, data: AccountData) -> (bytes: Vec<u8>)
        requires
            data.belongs_to(self),
        ensures
            bytes@.len() == ACCOUNT_STATIC_SIZE + self.data.len,
            header_in(bytes@, self.account),
            bytes@.subrange(ACCOUNT_STATIC_SIZE as int, bytes@.len() as int) == data@,
    {
        let mut bytes: Vec<u8> = Vec::new();
        bytes.push(self.account.borrow_state);
        bytes.push(self.account.is_signer);
        bytes.push(self.account.is_writable);
        bytes.push(self.account.executable);
        let ghost flags = bytes@;
        push_bytes(&mut bytes, &self.account.padding);
        push_bytes(&mut bytes, &self.account.key);
        push_bytes(&mut bytes, &self.account.owner);
        let ghost fixed = bytes@;
        push_u64(&mut bytes, self.account.lamports);
        let ghost with_lamports = bytes@;
        push_u64(&mut bytes, self.account.data_len);
        let ghost header = bytes@;
        let mut place = data.into_vec();
        bytes.append(&mut place);
        proof {
            assert(fixed =~= flags + (self.account.padding@ + (self.account.key@
                + self.account.owner@)));
            assert(fixed == with_lamports.subrange(0, 72));
            assert(with_lamports == header.subrange(0, 80));
            assert forall|i: int| 0 <= i < 72 implies bytes@[i] == fixed[i] by {
                assert(with_lamports.subrange(0, 72)[i] == with_lamports[i]);
                assert(header.subrange(0, 80)[i] == header[i]);
            }
            assert forall|i: int| 72 <= i < 80 implies bytes@[i] == with_lamports[i] by {
                assert(header.subrange(0, 80)[i] == header[i]);
            }
            assert(fixed.subrange(4, 8) =~= self.account.padding@);
            assert(fixed.subrange(8, 40) =~= self.account.key@);
            assert(fixed.subrange(40, 72) =~= self.account.owner@);
            assert(bytes@.subrange(4, 8) =~= fixed.subrange(4, 8));
            assert(bytes@.subrange(8, 40) =~= fixed.subrange(8, 40));
            assert(bytes@.subrange(40, 72) =~= fixed.subrange(40, 72));
            assert(le_u64(bytes@, 72) == le_u64(with_lamports, 72));
            assert(le_u64(bytes@, 80) == le_u64(header, 80));
            assert(bytes@.subrange(0, 4) =~= flags) by {
                assert(fixed.subrange(0, 4) =~= flags);
                assert(bytes@.subrange(0, 4) =~= fixed.subrange(0, 4));
            }
            assert(bytes@[0] == flags[0] && bytes@[1] == flags[1] && bytes@[2] == flags[2]
                && bytes@[3] == flags[3]);
            assert(bytes@.subrange(ACCOUNT_STATIC_SIZE as int, bytes@.len() as int) =~= data@);
        }
        bytes
    }
}

} // verus!
