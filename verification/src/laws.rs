//! What holds of accounts across operations.
use vstd::prelude::*;

use crate::account;
use crate::account::{
    Account, AccountData, AccountStatic, ACCOUNT_STATIC_SIZE, MAX_PERMITTED_DATA_INCREASE,
    NON_DUP_MARKER,
};
use crate::account_info;
use crate::account_info::AccountInfo;
use crate::accounts::Accounts;
use crate::borrow;
use crate::borrow::{BorrowState, BorrowStep};
use crate::error::ProgramError;
use crate::layout;
use crate::pubkey;
use crate::pubkey::Pubkey;
use crate::step;
use crate::step::AccountStep;

verus! {

/// The borrows of an account that have been granted and have not ended.
pub struct Loans {
    /// Number of immutable borrows.
    pub immutable: nat,
    /// Number of mutable borrows.
    pub mutable: nat,
}

/// Largest number of immutable borrows of an account at a time.
pub open spec fn max_immutable() -> nat {
    254
}

/// The loans after `step`, which met the borrow state `state`.
pub open spec fn loans_after(state: u8, loans: Loans, step: AccountStep) -> Loans {
    match step {
        AccountStep::Borrow(BorrowStep::Borrow) => if borrow::can_share(state) {
            Loans { immutable: loans.immutable + 1, ..loans }
        } else {
            loans
        },
        AccountStep::Borrow(BorrowStep::BorrowMut) => if borrow::can_lend_mut(state) {
            Loans { mutable: loans.mutable + 1, ..loans }
        } else {
            loans
        },
        AccountStep::Borrow(BorrowStep::Drop) => Loans {
            immutable: (loans.immutable - 1) as nat,
            ..loans
        },
        AccountStep::Borrow(BorrowStep::DropMut) => Loans {
            mutable: (loans.mutable - 1) as nat,
            ..loans
        },
        _ => loans,
    }
}

/// Whether `step` can be taken: a borrow ends only if there is one.
pub open spec fn possible(loans: Loans, step: AccountStep) -> bool {
    match step {
        AccountStep::Borrow(BorrowStep::Drop) => loans.immutable > 0,
        AccountStep::Borrow(BorrowStep::DropMut) => loans.mutable > 0,
        _ => true,
    }
}

/// What `steps` make of `account`, which has no loans at first, and the loans
/// that they leave.
pub open spec fn history(account: Account, steps: Seq<AccountStep>) -> (Account, Loans)
    decreases steps.len(),
{
    if steps.len() == 0 {
        (account, Loans { immutable: 0, mutable: 0 })
    } else {
        let (before, loans) = history(account, steps.drop_last());
        (
            step::account_after(before, steps.last()),
            loans_after(before.account.borrow_state, loans, steps.last()),
        )
    }
}

/// Whether each of `steps` can be taken after those before it.
pub open spec fn all_possible(account: Account, steps: Seq<AccountStep>) -> bool
    decreases steps.len(),
{
    steps.len() > 0 ==> {
        &&& all_possible(account, steps.drop_last())
        &&& possible(history(account, steps.drop_last()).1, steps.last())
    }
}

/// Whether `state` is the borrow state of an account with these loans.
pub open spec fn records(state: u8, loans: Loans) -> bool {
    if loans.mutable == 0 {
        &&& loans.immutable <= max_immutable()
        &&& state == NON_DUP_MARKER - loans.immutable
    } else {
        &&& loans.mutable == 1
        &&& loans.immutable == 0
        &&& state == 0
    }
}

/// Whatever a program does to an account that is not borrowed at first, the
/// borrow state says which borrows are out: there are at most 254 immutable
/// ones, or there is a single mutable one, and never both kinds at a time.
pub proof fn law_state_records_loans(account: Account, steps: Seq<AccountStep>)
    requires
        account.account.borrow_state == NON_DUP_MARKER,
        all_possible(account, steps),
    ensures
        records(history(account, steps).0.account.borrow_state, history(account, steps).1),
    decreases steps.len(),
{
    if steps.len() > 0 {
        law_state_records_loans(account, steps.drop_last());
    }
}

/// Whatever a program does to an account, the account stays well formed, and
/// its key, its flags and the place of its data, with the growth limit, stay
/// what they were in the input.
pub proof fn law_what_every_step_keeps(account: Account, steps: Seq<AccountStep>)
    requires
        account.wf(),
    ensures
        history(account, steps).0.wf(),
        history(account, steps).0.data == account.data,
        history(account, steps).0.account.key == account.account.key,
        history(account, steps).0.account.is_signer == account.account.is_signer,
        history(account, steps).0.account.is_writable == account.account.is_writable,
        history(account, steps).0.account.executable == account.account.executable,
        history(account, steps).0.account.padding == account.account.padding,
    decreases steps.len(),
{
    if steps.len() > 0 {
        law_what_every_step_keeps(account, steps.drop_last());
    }
}

/// While data are borrowed, neither a resize nor closing the account is granted:
/// both fail, and header and data bytes stay as they are.
pub proof fn law_borrowed_data_stay(
    account: Account,
    bytes: Seq<u8>,
    loans: Loans,
    new_len: usize,
)
    requires
        records(account.account.borrow_state, loans),
        loans.immutable > 0 || loans.mutable > 0,
    ensures
        step::resize_outcome(account, new_len) == Err::<(), ProgramError>(
            ProgramError::AccountBorrowFailed,
        ),
        step::account_after(account, AccountStep::Resize(new_len)) == account,
        step::bytes_after(account, bytes, AccountStep::Resize(new_len)) == bytes,
        step::close_outcome(account) == Err::<(), ProgramError>(ProgramError::AccountBorrowFailed),
        step::account_after(account, AccountStep::Close) == account,
        step::bytes_after(account, bytes, AccountStep::Close) == bytes,
{
}

/// A borrow is granted exactly if the loans leave room for it: an immutable one
/// unless there is a mutable one or there are 254 immutable ones, a mutable one
/// if there is none at all. The masks tell which kind there is.
pub proof fn law_loans_decide(state: u8, loans: Loans)
    requires
        records(state, loans),
    ensures
        borrow::can_share(state) <==> loans.mutable == 0 && loans.immutable < max_immutable(),
        borrow::can_lend_mut(state) <==> loans.mutable == 0 && loans.immutable == 0,
        borrow::matches_mask(state, BorrowState::ImmutablyBorrowed) <==> loans.immutable > 0,
        borrow::matches_mask(state, BorrowState::MutablyBorrowed) <==> loans.mutable > 0,
        borrow::matches_mask(state, BorrowState::Borrowed) <==> loans.immutable > 0
            || loans.mutable > 0,
{
}

/// While a guard is out, its end leaves the borrow state within its range.
pub proof fn law_live_guard_can_end(state: u8, loans: Loans)
    requires
        records(state, loans),
        loans.immutable > 0,
    ensures
        state < NON_DUP_MARKER,
        borrow::state_after(state, BorrowStep::Drop) == state + 1,
{
}

/// `n` requests for an immutable borrow, and nothing else.
pub open spec fn borrow_requests(n: nat) -> Seq<AccountStep> {
    Seq::new(n, |i: int| AccountStep::Borrow(BorrowStep::Borrow))
}

/// An account that is not borrowed grants 254 immutable borrows and no more.
pub proof fn law_immutable_borrow_limit(account: Account, n: nat)
    requires
        account.account.borrow_state == NON_DUP_MARKER,
    ensures
        all_possible(account, borrow_requests(n)),
        history(account, borrow_requests(n)).1.immutable == if n <= max_immutable() {
            n
        } else {
            max_immutable()
        },
        borrow::can_share(history(account, borrow_requests(n)).0.account.borrow_state) <==> n
            < max_immutable(),
        n > 0 ==> !borrow::can_lend_mut(
            history(account, borrow_requests(n)).0.account.borrow_state,
        ),
    decreases n,
{
    if n > 0 {
        law_immutable_borrow_limit(account, (n - 1) as nat);
        assert(borrow_requests(n).drop_last() =~= borrow_requests((n - 1) as nat));
        law_state_records_loans(account, borrow_requests((n - 1) as nat));
    }
    law_state_records_loans(account, borrow_requests(n));
}

/// An immutable borrow that is granted and then ends leaves the accounts as
/// they were.
pub proof fn law_drop_undoes_borrow(info: AccountInfo, before: Accounts, lent: Accounts)
    requires
        info.valid_in(before),
        borrow::can_share(info.borrow_state(before)),
        lent@ == info.after(before, AccountStep::Borrow(BorrowStep::Borrow)),
    ensures
        info.after(lent, AccountStep::Borrow(BorrowStep::Drop)) == before@,
{
    assert(info.after(lent, AccountStep::Borrow(BorrowStep::Drop)) =~= before@);
}

/// A mutable borrow that is granted and then ends leaves the accounts as they
/// were.
pub proof fn law_drop_undoes_mutable_borrow(info: AccountInfo, before: Accounts, lent: Accounts)
    requires
        info.valid_in(before),
        borrow::can_lend_mut(info.borrow_state(before)),
        lent@ == info.after(before, AccountStep::Borrow(BorrowStep::BorrowMut)),
    ensures
        info.after(lent, AccountStep::Borrow(BorrowStep::DropMut)) == before@,
{
    assert(info.after(lent, AccountStep::Borrow(BorrowStep::DropMut)) =~= before@);
}

/// A check succeeds exactly if the request it stands for changes the borrow
/// state, that is, if the borrow is granted.
pub proof fn law_checks_predict_borrows(state: u8)
    ensures
        borrow::share_check(state) is Ok <==> borrow::state_after(state, BorrowStep::Borrow)
            != state,
        borrow::lend_mut_check(state) is Ok <==> borrow::state_after(state, BorrowStep::BorrowMut)
            != state,
{
}

/// A state is borrowed if it is immutably or mutably borrowed, and never both;
/// only a state that is not borrowed can be lent mutably.
pub proof fn law_masks(state: u8)
    ensures
        borrow::matches_mask(state, BorrowState::Borrowed) <==> borrow::matches_mask(
            state,
            BorrowState::ImmutablyBorrowed,
        ) || borrow::matches_mask(state, BorrowState::MutablyBorrowed),
        !(borrow::matches_mask(state, BorrowState::ImmutablyBorrowed) && borrow::matches_mask(
            state,
            BorrowState::MutablyBorrowed,
        )),
        borrow::can_lend_mut(state) <==> !borrow::matches_mask(state, BorrowState::Borrowed),
        borrow::can_share(state) ==> !borrow::matches_mask(state, BorrowState::MutablyBorrowed),
{
}

/// What is done to an account through one pointer is seen through every equal
/// pointer, and through no other. Pointers stay valid.
pub proof fn law_pointers_share_account(
    info: AccountInfo,
    other: AccountInfo,
    before: Accounts,
    after: Accounts,
    step: AccountStep,
)
    requires
        info.valid_in(before),
        other.valid_in(before),
        after@ == info.after(before, step),
    ensures
        after.wf(),
        other.valid_in(after),
        other == info ==> other.account(after) == step::account_after(info.account(before), step),
        other != info ==> other.account(after) == other.account(before),
{
    account_info::law_equal_pointers(info, other);
    assert forall|address: usize|
        #![trigger after@[address]]
        after@.contains_key(address) implies after@[address].wf() && after@[address].data.address
        == address by {
        assert(before@.contains_key(address));
        assert(before@[address].wf());
    }
}

/// Lamports that have been set are read back, and nothing else of the account
/// has changed.
pub proof fn law_lamports_are_read_back(
    info: AccountInfo,
    before: Accounts,
    after: Accounts,
    lamports: u64,
)
    requires
        info.valid_in(before),
        after@ == info.after(before, AccountStep::SetLamports(lamports)),
    ensures
        info.valid_in(after),
        info.account(after).account.lamports == lamports,
        info.account(after).with_lamports(info.account(before).account.lamports) == info.account(
            before,
        ),
{
    law_pointers_share_account(info, info, before, after, AccountStep::SetLamports(lamports));
}

/// An owner that has been assigned is read back, and nothing else of the
/// account has changed.
pub proof fn law_owner_is_read_back(
    info: AccountInfo,
    before: Accounts,
    after: Accounts,
    owner: Pubkey,
)
    requires
        info.valid_in(before),
        after@ == info.after(before, AccountStep::Assign(owner)),
    ensures
        info.valid_in(after),
        info.account(after).account.owner == owner,
        info.account(after).with_owner(info.account(before).account.owner) == info.account(before),
{
    law_pointers_share_account(info, info, before, after, AccountStep::Assign(owner));
}

/// `n` zero bytes.
pub open spec fn zeros(n: int) -> Seq<u8> {
    Seq::new(n as nat, |i: int| 0u8)
}

/// Resizing either truncates the data or extends them with zeros.
pub proof fn law_resize_truncates_or_zero_extends(account: Account, bytes: Seq<u8>, new_len: usize)
    requires
        account.wf(),
        bytes.len() == account.data.len,
        account.fits(new_len),
    ensures
        account.with_data_len(new_len as u64).wf(),
        account.with_data_len(new_len as u64).data_in(account.resized_bytes(bytes, new_len))
            == if new_len <= account.account.data_len {
            account.data_in(bytes).subrange(0, new_len as int)
        } else {
            account.data_in(bytes) + zeros(new_len - account.account.data_len)
        },
{
    let resized = account.with_data_len(new_len as u64).data_in(
        account.resized_bytes(bytes, new_len),
    );
    if new_len <= account.account.data_len {
        assert(resized =~= account.data_in(bytes).subrange(0, new_len as int));
    } else {
        assert(resized =~= account.data_in(bytes) + zeros(new_len - account.account.data_len));
    }
}

/// Data that a resize cuts off do not come back: after shrinking to `small` and
/// growing to `large`, the bytes from `small` on are zero.
pub proof fn law_shrunk_data_do_not_return(
    account: Account,
    bytes: Seq<u8>,
    small: usize,
    large: usize,
)
    requires
        account.wf(),
        bytes.len() == account.data.len,
        small <= account.account.data_len,
        small <= large,
        account.fits(large),
    ensures
        ({
            let shrunk = account.with_data_len(small as u64);
            let grown = shrunk.with_data_len(large as u64);
            grown.data_in(
                shrunk.resized_bytes(account.resized_bytes(bytes, small), large),
            ) == account.data_in(bytes).subrange(0, small as int) + zeros(large - small)
        }),
{
    let shrunk = account.with_data_len(small as u64);
    law_resize_truncates_or_zero_extends(account, bytes, small);
    law_resize_truncates_or_zero_extends(shrunk, account.resized_bytes(bytes, small), large);
    if small == large {
        assert(account.data_in(bytes).subrange(0, small as int) + zeros(0) =~= account.data_in(
            bytes,
        ).subrange(0, small as int));
        assert(shrunk.data_in(account.resized_bytes(bytes, small)).subrange(0, large as int)
            =~= shrunk.data_in(account.resized_bytes(bytes, small)));
    }
}

/// Something that a program does to the data of an account.
pub enum DataStep {
    /// A step on the account.
    Account(AccountStep),
    /// The data are overwritten, through a mutable borrow, by bytes of the same
    /// number.
    Write(Seq<u8>),
}

/// Account and bytes of the place reserved for its data, after `step`.
pub open spec fn data_after(account: Account, bytes: Seq<u8>, step: DataStep) -> (Account, Seq<u8>) {
    match step {
        DataStep::Account(step) => (
            step::account_after(account, step),
            step::bytes_after(account, bytes, step),
        ),
        DataStep::Write(written) => (account, written + account.margin_in(bytes)),
    }
}

/// Account and bytes after `steps`.
pub open spec fn data_history(account: Account, bytes: Seq<u8>, steps: Seq<DataStep>) -> (
    Account,
    Seq<u8>,
)
    decreases steps.len(),
{
    if steps.len() == 0 {
        (account, bytes)
    } else {
        let (before, bytes_before) = data_history(account, bytes, steps.drop_last());
        data_after(before, bytes_before, steps.last())
    }
}

/// Whether each of `steps` that writes to the data replaces them by as many
/// bytes, and leaves the one at `i` as it is.
pub open spec fn never_writes(account: Account, bytes: Seq<u8>, steps: Seq<DataStep>, i: int) -> bool
    decreases steps.len(),
{
    steps.len() > 0 ==> {
        let (before, bytes_before) = data_history(account, bytes, steps.drop_last());
        &&& never_writes(account, bytes, steps.drop_last(), i)
        &&& steps.last() matches DataStep::Write(written) ==> {
            &&& written.len() == before.account.data_len
            &&& i < written.len() ==> written[i] == bytes_before[i]
        }
    }
}

/// Once the data have been too short for a byte at `i`, that byte is zero
/// wherever the data reach it again, over any run of steps that do not write it.
pub proof fn law_cut_off_data_do_not_return(
    account: Account,
    bytes: Seq<u8>,
    steps: Seq<DataStep>,
    i: int,
)
    requires
        account.wf(),
        bytes.len() == account.data.len,
        account.account.data_len <= i,
        never_writes(account, bytes, steps, i),
    ensures
        data_history(account, bytes, steps).0.wf(),
        data_history(account, bytes, steps).0.data == account.data,
        data_history(account, bytes, steps).1.len() == bytes.len(),
        data_history(account, bytes, steps).0.account.data_len <= i || data_history(
            account,
            bytes,
            steps,
        ).1[i] == 0,
    decreases steps.len(),
{
    if steps.len() > 0 {
        law_cut_off_data_do_not_return(account, bytes, steps.drop_last(), i);
    }
}

/// Growing and then going back to the length before restores account and data.
pub proof fn law_grow_then_shrink_restores(account: Account, bytes: Seq<u8>, larger: usize)
    requires
        account.wf(),
        bytes.len() == account.data.len,
        account.account.data_len <= larger,
        account.fits(larger),
    ensures
        ({
            let grown = account.with_data_len(larger as u64);
            let len = account.account.data_len as usize;
            &&& grown.fits(len)
            &&& grown.with_data_len(len as u64) == account
            &&& account.data_in(
                grown.resized_bytes(account.resized_bytes(bytes, larger), len),
            ) == account.data_in(bytes)
        }),
{
    let grown = account.with_data_len(larger as u64);
    let len = account.account.data_len as usize;
    assert(account.data_in(grown.resized_bytes(account.resized_bytes(bytes, larger), len))
        =~= account.data_in(bytes));
}

/// A resize to the current length changes nothing.
pub proof fn law_resize_to_same_length(account: Account, bytes: Seq<u8>)
    requires
        account.wf(),
        bytes.len() == account.data.len,
    ensures
        ({
            let len = account.account.data_len as usize;
            &&& account.fits(len)
            &&& account.with_data_len(len as u64) == account
            &&& account.resized_bytes(bytes, len) == bytes
        }),
{
    assert(account.resized_bytes(bytes, account.account.data_len as usize) =~= bytes);
}

/// The data can grow to [`MAX_PERMITTED_DATA_INCREASE`] bytes more than they
/// had in the input, and no further, whatever else a program has done to the
/// account before.
pub proof fn law_growth_limit(account: Account, steps: Seq<AccountStep>, new_len: usize)
    requires
        account.wf(),
    ensures
        history(account, steps).0.fits(new_len) <==> new_len - account.data.original_len()
            <= MAX_PERMITTED_DATA_INCREASE,
{
    law_what_every_step_keeps(account, steps);
}

/// Where lengths stay below `i32::MAX`, the delta is the current data length
/// minus the original one, and never exceeds [`MAX_PERMITTED_DATA_INCREASE`].
pub proof fn law_delta(account: Account)
    requires
        account.wf(),
        account.data.len <= i32::MAX,
    ensures
        account.delta() == account.account.data_len - account.data.original_len(),
        -account.data.original_len() <= account.delta() <= MAX_PERMITTED_DATA_INCREASE,
{
}

/// A resize moves the delta to the new length minus the original one.
pub proof fn law_resize_sets_delta(account: Account, new_len: usize)
    requires
        account.wf(),
        account.fits(new_len),
        account.data.len <= i32::MAX,
    ensures
        account.with_data_len(new_len as u64).delta() == new_len - account.data.original_len(),
{
}

/// Closing an account empties it and takes owner and lamports away. What else
/// the account holds stays, the growth limit included, and closing it again
/// changes nothing.
pub proof fn law_close(account: Account)
    requires
        account.wf(),
    ensures
        account.closed().wf(),
        account.closed().account.owner == pubkey::zero_pubkey(),
        account.closed().account.lamports == 0,
        account.closed().account.data_len == 0,
        account.closed().account.key == account.account.key,
        account.closed().account.borrow_state == account.account.borrow_state,
        account.closed().account.is_signer == account.account.is_signer,
        account.closed().account.is_writable == account.account.is_writable,
        account.closed().account.executable == account.account.executable,
        account.closed().account.padding == account.account.padding,
        account.closed().data == account.data,
        account.closed().closed() == account.closed(),
        account.data.len <= i32::MAX ==> account.closed().delta() == -account.data.original_len(),
{
}

/// The zero address holds 32 zero bytes.
pub proof fn law_zero_pubkey()
    ensures
        pubkey::zero_pubkey()@ == zeros(32),
{
    assert(pubkey::zero_pubkey()@ =~= zeros(32));
}

/// What has been written through a mutable borrow of the data is what a borrow
/// reads afterwards, and what lies behind the data stays as it was.
pub proof fn law_written_data_read_back(account: Account, bytes: Seq<u8>, written: Seq<u8>)
    requires
        account.wf(),
        bytes.len() == account.data.len,
        written.len() == account.account.data_len,
    ensures
        (written + account.margin_in(bytes)).len() == bytes.len(),
        account.data_in(written + account.margin_in(bytes)) == written,
        account.margin_in(written + account.margin_in(bytes)) == account.margin_in(bytes),
{
    let after = written + account.margin_in(bytes);
    assert(account.data_in(after) =~= written);
    assert(account.margin_in(after) =~= account.margin_in(bytes));
}

/// The bytes determine the header that is read from them.
pub proof fn law_header_is_determined(bytes: Seq<u8>, header: AccountStatic, other: AccountStatic)
    requires
        layout::header_in(bytes, header),
        layout::header_in(bytes, other),
    ensures
        header == other,
{
    assert(header.padding@ == other.padding@);
    assert(header.padding =~= other.padding);
    assert(header.key@ == other.key@);
    assert(header.key =~= other.key);
    assert(header.owner@ == other.owner@);
    assert(header.owner =~= other.owner);
}

/// The number that `n` bytes of `s`, from `at` on, hold, least significant byte
/// first.
spec fn le_number(s: Seq<u8>, at: int, n: nat) -> int
    decreases n,
{
    if n == 0 {
        0
    } else {
        s[at] + 0x100 * le_number(s, at + 1, (n - 1) as nat)
    }
}

proof fn lemma_number_determines_bytes(s: Seq<u8>, t: Seq<u8>, at: int, n: nat)
    requires
        le_number(s, at, n) == le_number(t, at, n),
    ensures
        forall|i: int| at <= i < at + n ==> #[trigger] s[i] == t[i],
    decreases n,
{
    if n > 0 {
        assert(s[at] == t[at]);
        lemma_number_determines_bytes(s, t, at + 1, (n - 1) as nat);
    }
}

/// Eight bytes are determined by the number that they hold.
pub proof fn law_number_determines_bytes(s: Seq<u8>, t: Seq<u8>, at: int)
    requires
        layout::le_u64(s, at) == layout::le_u64(t, at),
    ensures
        forall|i: int| at <= i < at + 8 ==> #[trigger] s[i] == t[i],
{
    reveal_with_fuel(le_number, 9);
    assert(le_number(s, at, 8) == layout::le_u64(s, at));
    assert(le_number(t, at, 8) == layout::le_u64(t, at));
    lemma_number_determines_bytes(s, t, at, 8);
}

/// The header determines the bytes that it is made of, all of them.
pub proof fn law_header_determines_bytes(header: AccountStatic, bytes: Seq<u8>, other: Seq<u8>)
    requires
        ACCOUNT_STATIC_SIZE <= bytes.len(),
        ACCOUNT_STATIC_SIZE <= other.len(),
        layout::header_in(bytes, header),
        layout::header_in(other, header),
    ensures
        bytes.subrange(0, ACCOUNT_STATIC_SIZE as int) == other.subrange(
            0,
            ACCOUNT_STATIC_SIZE as int,
        ),
{
    law_number_determines_bytes(bytes, other, 72);
    law_number_determines_bytes(bytes, other, 80);
    assert forall|i: int| 0 <= i < ACCOUNT_STATIC_SIZE implies bytes[i] == other[i] by {
        if 4 <= i < 8 {
            assert(bytes.subrange(4, 8)[i - 4] == other.subrange(4, 8)[i - 4]);
        } else if 8 <= i < 40 {
            assert(bytes.subrange(8, 40)[i - 8] == other.subrange(8, 40)[i - 8]);
        } else if 40 <= i < 72 {
            assert(bytes.subrange(40, 72)[i - 40] == other.subrange(40, 72)[i - 40]);
        }
    }
    assert(bytes.subrange(0, ACCOUNT_STATIC_SIZE as int) =~= other.subrange(
        0,
        ACCOUNT_STATIC_SIZE as int,
    ));
}

/// Bytes that have been read as an account and that the program has not
/// changed are given back as they were.
pub proof fn law_unchanged_bytes_are_given_back(
    bytes: Seq<u8>,
    address: int,
    account: Account,
    data: AccountData,
    offset: int,
    rest: Seq<u8>,
    given_back: Seq<u8>,
)
    requires
        layout::parsed(bytes, address, account, data, offset, rest),
        given_back.len() == ACCOUNT_STATIC_SIZE + account.data.len,
        layout::header_in(given_back, account.account),
        given_back.subrange(ACCOUNT_STATIC_SIZE as int, given_back.len() as int) == data@,
    ensures
        given_back + rest == bytes,
{
    law_header_determines_bytes(account.account, bytes, given_back);
    assert forall|i: int| 0 <= i < bytes.len() implies (given_back + rest)[i] == bytes[i] by {
        if i < ACCOUNT_STATIC_SIZE {
            assert(bytes.subrange(0, ACCOUNT_STATIC_SIZE as int)[i] == given_back.subrange(
                0,
                ACCOUNT_STATIC_SIZE as int,
            )[i]);
        } else if i < offset {
            assert(data@[i - ACCOUNT_STATIC_SIZE] == given_back[i]);
        }
    }
    assert(given_back + rest =~= bytes);
}

/// An account that has been given back as bytes is read again with the same
/// fields and the same data.
pub proof fn law_given_back_account_is_read_again(
    bytes: Seq<u8>,
    account: Account,
    data: AccountData,
    address: int,
    read: Account,
    read_data: AccountData,
    offset: int,
    rest: Seq<u8>,
)
    requires
        account.wf(),
        data.belongs_to(account),
        ACCOUNT_STATIC_SIZE + account.data.len <= bytes.len(),
        layout::header_in(bytes, account.account),
        bytes.subrange(ACCOUNT_STATIC_SIZE as int, ACCOUNT_STATIC_SIZE + account.data.len)
            == data@,
        layout::parsed(bytes, address, read, read_data, offset, rest),
    ensures
        read.account == account.account,
        read.data_in(read_data@) == account.data_in(data@),
{
    law_header_is_determined(bytes, read.account, account.account);
    assert forall|i: int| 0 <= i < account.account.data_len implies read_data@[i] == data@[i] by {
        assert(read_data@[i] == bytes[ACCOUNT_STATIC_SIZE + i]);
        assert(data@[i] == bytes[ACCOUNT_STATIC_SIZE + i]);
    }
    assert(read.data_in(read_data@) =~= account.data_in(data@));
}

/// Where an account has just been read, it has not been resized, and it can
/// grow by [`MAX_PERMITTED_DATA_INCREASE`] bytes.
pub proof fn law_fresh_account(
    bytes: Seq<u8>,
    address: int,
    account: Account,
    data: AccountData,
    offset: int,
    rest: Seq<u8>,
)
    requires
        layout::parsed(bytes, address, account, data, offset, rest),
    ensures
        account.data.len <= i32::MAX ==> account.delta() == 0,
        account.data.len == account.account.data_len + MAX_PERMITTED_DATA_INCREASE,
        account.data.address + account.data.len == address + offset,
        account.data_in(data@) == bytes.subrange(
            ACCOUNT_STATIC_SIZE as int,
            ACCOUNT_STATIC_SIZE + account.account.data_len,
        ),
{
    assert(account.data_in(data@) =~= bytes.subrange(
        ACCOUNT_STATIC_SIZE as int,
        ACCOUNT_STATIC_SIZE + account.account.data_len,
    ));
}

/// `bytes` with those from `from` up to `to`, which is left out, set to zero.
pub open spec fn zeroed(bytes: Seq<u8>, from: int, to: int) -> Seq<u8> {
    Seq::new(
        bytes.len(),
        |i: int|
            if from <= i < to {
                0u8
            } else {
                bytes[i]
            },
    )
}

/// Closing an account amounts to zeroing the 48 bytes in front of its data,
/// where owner, lamports and data length are.
pub proof fn law_close_zeroes_48_bytes(bytes: Seq<u8>, account: Account)
    requires
        ACCOUNT_STATIC_SIZE <= bytes.len(),
        layout::header_in(bytes, account.account),
    ensures
        layout::header_in(
            zeroed(bytes, ACCOUNT_STATIC_SIZE - 48, ACCOUNT_STATIC_SIZE as int),
            account.closed().account,
        ),
{
    let after = zeroed(bytes, ACCOUNT_STATIC_SIZE - 48, ACCOUNT_STATIC_SIZE as int);
    law_zero_pubkey();
    assert(after.subrange(4, 8) =~= bytes.subrange(4, 8));
    assert(after.subrange(8, 40) =~= bytes.subrange(8, 40));
    assert(after.subrange(40, 72) =~= zeros(32));
}

/// A resize that is granted, checked or not, either truncates the data or
/// extends them with zeros, whatever else the account holds. It changes nothing
/// else of the header, and no byte but those that the data grow by.
pub proof fn law_granted_resize(account: Account, bytes: Seq<u8>, new_len: usize, step: AccountStep)
    requires
        account.wf(),
        bytes.len() == account.data.len,
        step == AccountStep::Resize(new_len) && step::resize_outcome(account, new_len) is Ok || step
            == AccountStep::ResizeUnchecked(new_len) && step::resize_unchecked_outcome(
            account,
            new_len,
        ) is Ok,
    ensures
        ({
            let before = bytes.subrange(0, account.account.data_len as int);
            let after = step::account_after(account, step);
            let bytes_after = step::bytes_after(account, bytes, step);
            &&& after.account == (AccountStatic { data_len: new_len as u64, ..account.account })
            &&& after.account.data_len == new_len
            &&& after.data == account.data
            &&& bytes_after.len() == bytes.len()
            &&& after.data_in(bytes_after) == bytes_after.subrange(0, new_len as int)
            &&& new_len <= account.account.data_len ==> {
                &&& bytes_after.subrange(0, new_len as int) == before.subrange(0, new_len as int)
                &&& bytes_after == bytes
            }
            &&& new_len > account.account.data_len ==> bytes_after.subrange(0, new_len as int)
                == before + Seq::new(
                (new_len - account.account.data_len) as nat,
                |i: int| 0u8,
            )
            &&& forall|i: int|
                0 <= i < bytes.len() && !(account.account.data_len <= i < new_len)
                    ==> #[trigger] bytes_after[i] == bytes[i]
            &&& forall|i: int|
                account.account.data_len <= i < new_len ==> #[trigger] bytes_after[i] == 0
        }),
{
    let before = bytes.subrange(0, account.account.data_len as int);
    let bytes_after = step::bytes_after(account, bytes, step);
    assert(bytes_after =~= account.resized_bytes(bytes, new_len));
    if new_len <= account.account.data_len {
        assert(bytes_after =~= bytes);
        assert(bytes_after.subrange(0, new_len as int) =~= before.subrange(0, new_len as int));
    } else {
        assert(bytes_after.subrange(0, new_len as int) =~= before + Seq::new(
            (new_len - account.account.data_len) as nat,
            |i: int| 0u8,
        ));
    }
}

/// Without the borrow check a resize is granted exactly up to 10240 bytes more
/// than the data had in the input, and otherwise fails as an invalid
/// reallocation. With the check it fails on every account that is borrowed, and
/// is decided in the same way on every other. A resize that fails changes
/// nothing.
pub proof fn law_resize_is_decided_by_length_and_borrows(
    account: Account,
    bytes: Seq<u8>,
    new_len: usize,
)
    requires
        account.wf(),
    ensures
        account.data.original_len() == account.data.len - 10_240,
        step::resize_unchecked_outcome(account, new_len) == if new_len
            <= account.data.original_len() + 10_240 {
            Ok::<(), ProgramError>(())
        } else {
            Err::<(), ProgramError>(ProgramError::InvalidRealloc)
        },
        step::resize_outcome(account, new_len) == if account.account.borrow_state != 255 {
            Err::<(), ProgramError>(ProgramError::AccountBorrowFailed)
        } else if new_len <= account.data.original_len() + 10_240 {
            Ok::<(), ProgramError>(())
        } else {
            Err::<(), ProgramError>(ProgramError::InvalidRealloc)
        },
        account.account.borrow_state != 255 || new_len > account.data.len ==> {
            &&& step::account_after(account, AccountStep::Resize(new_len)) == account
            &&& step::bytes_after(account, bytes, AccountStep::Resize(new_len)) == bytes
        },
        new_len > account.data.len ==> {
            &&& step::account_after(account, AccountStep::ResizeUnchecked(new_len)) == account
            &&& step::bytes_after(account, bytes, AccountStep::ResizeUnchecked(new_len)) == bytes
        },
{
}

/// On an account that is not borrowed, the operations with the borrow check do
/// what those without it do.
pub proof fn law_checks_only_refuse(account: Account, bytes: Seq<u8>, new_len: usize)
    requires
        account.account.borrow_state == 255,
    ensures
        step::resize_outcome(account, new_len) == step::resize_unchecked_outcome(account, new_len),
        step::account_after(account, AccountStep::Resize(new_len)) == step::account_after(
            account,
            AccountStep::ResizeUnchecked(new_len),
        ),
        step::bytes_after(account, bytes, AccountStep::Resize(new_len)) == step::bytes_after(
            account,
            bytes,
            AccountStep::ResizeUnchecked(new_len),
        ),
        step::close_outcome(account) is Ok,
        step::account_after(account, AccountStep::Close) == step::account_after(
            account,
            AccountStep::CloseUnchecked,
        ),
{
}

/// Whether `after` is `before` with no owner, no lamports and no data, and is
/// otherwise the same.
pub open spec fn emptied(before: Account, after: Account) -> bool {
    &&& after.account.owner@.len() == 32
    &&& forall|i: int| 0 <= i < 32 ==> #[trigger] after.account.owner@[i] == 0
    &&& after.account.lamports == 0
    &&& after.account.data_len == 0
    &&& after.account.borrow_state == before.account.borrow_state
    &&& after.account.is_signer == before.account.is_signer
    &&& after.account.is_writable == before.account.is_writable
    &&& after.account.executable == before.account.executable
    &&& after.account.padding == before.account.padding
    &&& after.account.key == before.account.key
    &&& after.data == before.data
}

/// Closing without the borrow check always takes owner, lamports and data away.
/// With the check it does so exactly if no borrow is out, and otherwise fails
/// and changes nothing. Neither touches the data bytes.
pub proof fn law_close_empties(account: Account, bytes: Seq<u8>)
    ensures
        emptied(account, step::account_after(account, AccountStep::CloseUnchecked)),
        step::close_outcome(account) == if account.account.borrow_state == 255 {
            Ok::<(), ProgramError>(())
        } else {
            Err::<(), ProgramError>(ProgramError::AccountBorrowFailed)
        },
        account.account.borrow_state == 255 ==> emptied(
            account,
            step::account_after(account, AccountStep::Close),
        ),
        account.account.borrow_state != 255 ==> step::account_after(account, AccountStep::Close)
            == account,
        step::bytes_after(account, bytes, AccountStep::CloseUnchecked) == bytes,
        step::bytes_after(account, bytes, AccountStep::Close) == bytes,
{
    law_zero_pubkey();
    assert(pubkey::zero_pubkey()@ == zeros(32));
}

/// Setting the lamports or assigning an owner writes that field alone, whatever
/// the account holds, and leaves the data bytes as they are.
pub proof fn law_field_writes(account: Account, bytes: Seq<u8>, lamports: u64, owner: Pubkey)
    ensures
        step::account_after(account, AccountStep::SetLamports(lamports)) == (Account {
            account: AccountStatic { lamports, ..account.account },
            data: account.data,
        }),
        step::account_after(account, AccountStep::Assign(owner)) == (Account {
            account: AccountStatic { owner, ..account.account },
            data: account.data,
        }),
        step::bytes_after(account, bytes, AccountStep::SetLamports(lamports)) == bytes,
        step::bytes_after(account, bytes, AccountStep::Assign(owner)) == bytes,
{
}

/// An immutable borrow is granted exactly on the states above one and takes one
/// away; a mutable one exactly on the state 255 and leaves zero. The end of an
/// immutable borrow gives one back, that of a mutable one leaves 255. Nothing
/// but the borrow state changes.
pub proof fn law_borrow_steps(account: Account, bytes: Seq<u8>, step: BorrowStep)
    ensures
        step::account_after(account, AccountStep::Borrow(step)) == (Account {
            account: AccountStatic {
                borrow_state: borrow::state_after(account.account.borrow_state, step),
                ..account.account
            },
            data: account.data,
        }),
        step::bytes_after(account, bytes, AccountStep::Borrow(step)) == bytes,
        ({
            let state = account.account.borrow_state;
            let after = borrow::state_after(state, step);
            match step {
                BorrowStep::Borrow => after == if state > 1 {
                    state - 1
                } else {
                    state as int
                },
                BorrowStep::BorrowMut => after == if state == 255 {
                    0
                } else {
                    state as int
                },
                BorrowStep::Drop => state < 255 ==> after == state + 1,
                BorrowStep::DropMut => after == 255,
            }
        }),
{
}

/// What is possible in a borrow state, and what the checks answer: immutable
/// borrows from two on, a mutable one at 255 alone. The masks split the states
/// into zero, which is mutably borrowed, 255, which is not borrowed, and what
/// lies between, which is immutably borrowed.
pub proof fn law_borrow_state_values(state: u8)
    ensures
        borrow::can_share(state) <==> 2 <= state,
        borrow::can_lend_mut(state) <==> state == 255,
        borrow::share_check(state) == if 2 <= state {
            Ok::<(), ProgramError>(())
        } else {
            Err::<(), ProgramError>(ProgramError::AccountBorrowFailed)
        },
        borrow::lend_mut_check(state) == if state == 255 {
            Ok::<(), ProgramError>(())
        } else {
            Err::<(), ProgramError>(ProgramError::AccountBorrowFailed)
        },
        borrow::matches_mask(state, BorrowState::ImmutablyBorrowed) <==> 1 <= state <= 254,
        borrow::matches_mask(state, BorrowState::Borrowed) <==> state <= 254,
        borrow::matches_mask(state, BorrowState::MutablyBorrowed) <==> state == 0,
{
}

/// The number that eight bytes hold, least significant byte first.
pub open spec fn little_endian(b: Seq<u8>) -> int {
    b[0] + 256 * (b[1] + 256 * (b[2] + 256 * (b[3] + 256 * (b[4] + 256 * (b[5] + 256 * (b[6] + 256
        * b[7]))))))
}

/// Whether the fields of `header` are those at their offsets in `bytes`: borrow
/// state, signer, writable and executable flag in the first four bytes, then
/// padding, key, owner, lamports and data length.
pub open spec fn fields_at_offsets(bytes: Seq<u8>, header: AccountStatic) -> bool {
    &&& header.borrow_state == bytes[0]
    &&& header.is_signer == bytes[1]
    &&& header.is_writable == bytes[2]
    &&& header.executable == bytes[3]
    &&& forall|i: int| 0 <= i < 4 ==> #[trigger] header.padding@[i] == bytes[4 + i]
    &&& forall|i: int| 0 <= i < 32 ==> #[trigger] header.key@[i] == bytes[8 + i]
    &&& forall|i: int| 0 <= i < 32 ==> #[trigger] header.owner@[i] == bytes[40 + i]
    &&& header.lamports == little_endian(bytes.subrange(72, 80))
    &&& header.data_len == little_endian(bytes.subrange(80, 88))
}

/// An account is read with each field from its offset. Its data start at offset
/// 88, and the account takes 88 bytes, its data and 10240 more. What follows is
/// left over.
pub proof fn law_fields_are_read_from_their_offsets(
    bytes: Seq<u8>,
    address: int,
    account: Account,
    data: AccountData,
    offset: int,
    rest: Seq<u8>,
)
    requires
        layout::parsed(bytes, address, account, data, offset, rest),
    ensures
        fields_at_offsets(bytes, account.account),
        account.data.address == address + 88,
        account.data.len == account.account.data_len + 10_240,
        data.ptr() == account.data,
        offset == 88 + account.account.data_len + 10_240,
        data@.len() + 88 == offset,
        forall|i: int| 0 <= i < data@.len() ==> #[trigger] data@[i] == bytes[88 + i],
        rest.len() + offset == bytes.len(),
        forall|i: int| 0 <= i < rest.len() ==> #[trigger] rest[i] == bytes[offset + i],
{
    lemma_header_fields(bytes, account.account);
}

proof fn lemma_header_fields(bytes: Seq<u8>, header: AccountStatic)
    requires
        88 <= bytes.len(),
        layout::header_in(bytes, header),
    ensures
        fields_at_offsets(bytes, header),
{
    assert(header.padding@ == bytes.subrange(4, 8));
    assert(header.key@ == bytes.subrange(8, 40));
    assert(header.owner@ == bytes.subrange(40, 72));
}

/// Bytes that begin with a header have each field of it at its offset, when they
/// are given back as when they are read.
pub proof fn law_fields_are_written_to_their_offsets(bytes: Seq<u8>, header: AccountStatic)
    requires
        88 <= bytes.len(),
    ensures
        layout::header_in(bytes, header) <==> fields_at_offsets(bytes, header),
{
    if layout::header_in(bytes, header) {
        lemma_header_fields(bytes, header);
    }
    if fields_at_offsets(bytes, header) {
        assert(header.padding@ =~= bytes.subrange(4, 8)) by {
            assert forall|i: int| 0 <= i < 4 implies header.padding@[i] == bytes.subrange(
                4,
                8,
            )[i] by {}
        }
        assert(header.key@ =~= bytes.subrange(8, 40));
        assert(header.owner@ =~= bytes.subrange(40, 72));
    }
}

/// Bytes can be read as an account exactly if they reach from the header over
/// the data to the end of the room for growth.
pub proof fn law_what_can_be_read(bytes: Seq<u8>)
    ensures
        layout::holds_account(bytes) <==> 88 <= bytes.len() && 88 + little_endian(
            bytes.subrange(80, 88),
        ) + 10_240 <= bytes.len(),
        NON_DUP_MARKER == 255,
        ACCOUNT_STATIC_SIZE == 88,
        MAX_PERMITTED_DATA_INCREASE == 10_240,
{
}

/// Which accounts, pointers and bytes the operations accept: the data of an
/// account lie within its reserved place, which has the full margin; a pointer
/// leads to an account of that place; bytes have the place and the length.
pub proof fn law_what_is_accepted(
    account: Account,
    info: AccountInfo,
    accounts: Accounts,
    data: AccountData,
)
    ensures
        account.wf() <==> account.account.data_len <= account.data.len && 10_240
            <= account.data.len,
        accounts.wf() <==> forall|address: usize|
            #![trigger accounts@[address]]
            accounts@.contains_key(address) ==> accounts@[address].wf()
                && accounts@[address].data.address == address,
        info.account(accounts) == accounts@[info.ptr().address],
        info.borrow_state(accounts) == accounts@[info.ptr().address].account.borrow_state,
        info.valid_in(accounts) <==> accounts.wf() && accounts@.contains_key(info.ptr().address)
            && accounts@[info.ptr().address].data == info.ptr(),
        data.belongs_to(account) <==> data.ptr() == account.data && data@.len()
            == account.data.len,
        info.owns_data(accounts, data) <==> data.ptr() == accounts@[info.ptr().address].data
            && data@.len() == accounts@[info.ptr().address].data.len,
{
}

/// An operation on the account that a pointer leads to puts another header at
/// its address, and neither adds, removes nor changes any other.
pub proof fn law_only_the_account_pointed_to_changes(
    info: AccountInfo,
    accounts: Accounts,
    step: AccountStep,
)
    requires
        info.valid_in(accounts),
    ensures
        info.after(accounts, step).dom() == accounts@.dom(),
        info.after(accounts, step)[info.ptr().address] == step::account_after(
            accounts@[info.ptr().address],
            step,
        ),
        forall|address: usize|
            address != info.ptr().address && accounts@.contains_key(address)
                ==> #[trigger] info.after(accounts, step)[address] == accounts@[address],
{
    assert(info.after(accounts, step).dom() =~= accounts@.dom());
}

/// The data of an account are the leading bytes of the reserved place, as many as
/// its data length says, and the margin is what follows them.
pub proof fn law_data_lead(account: Account, bytes: Seq<u8>)
    requires
        account.account.data_len <= bytes.len(),
    ensures
        account.data_in(bytes).len() == account.account.data_len,
        forall|i: int|
            0 <= i < account.account.data_len ==> #[trigger] account.data_in(bytes)[i] == bytes[i],
        account.data_in(bytes) + account.margin_in(bytes) == bytes,
{
    assert(account.data_in(bytes) + account.margin_in(bytes) =~= bytes);
}

/// The delta is the difference of the two lengths as 32-bit numbers: the current
/// one, and the one that the data had in the input.
pub proof fn law_delta_is_a_difference(account: Account)
    requires
        account.wf(),
    ensures
        account::low_i32(account.data.len) == account.data.len as i32,
        account.delta() == (account.account.data_len as usize as i32) - ((account.data.len as i32)
            - 10_240),
        account.data.len <= i32::MAX ==> account.delta() == account.account.data_len - (
        account.data.len - 10_240),
{
}

} // verus!
