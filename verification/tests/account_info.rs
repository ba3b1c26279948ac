use pinocchio::{
    Account, AccountData, AccountInfo, Accounts, BorrowState, ProgramError, Ref, RefMut,
    ACCOUNT_STATIC_SIZE, MAX_PERMITTED_DATA_INCREASE, NON_DUP_MARKER as NOT_BORROWED,
};

/// The bytes of `words`, as memory holds them.
fn bytes_of(words: &[u64]) -> Vec<u8> {
    words.iter().flat_map(|word| word.to_le_bytes()).collect()
}

/// Where the tests place an account.
const ADDRESS: usize = 0x4_0000;

/// An account at `address`, with `data_len` bytes of data that count up from one.
fn account_at(address: usize, data_len: usize, borrow_state: u8) -> (Account, AccountData) {
    let mut bytes = vec![0u8; ACCOUNT_STATIC_SIZE + data_len + MAX_PERMITTED_DATA_INCREASE];
    bytes[0] = borrow_state;
    bytes[80..88].copy_from_slice(&(data_len as u64).to_le_bytes());
    for i in 0..data_len {
        bytes[ACCOUNT_STATIC_SIZE + i] = (i + 1) as u8;
    }
    let (account, data, _, _) = Account::from_bytes_ptr_not_cloned(bytes, address);
    (account, data)
}

/// One account with `data_len` bytes of data that count up from one.
fn one_account(data_len: usize, borrow_state: u8) -> (Accounts, AccountInfo, AccountData) {
    let (account, data) = account_at(ADDRESS, data_len, borrow_state);
    let mut accounts = Accounts::new();
    let info = accounts.insert(account);
    (accounts, info, data)
}

#[test]
fn test_data_ref() {
    let data: [u8; 4] = [0, 1, 2, 3];
    let (mut accounts, state, _) = one_account(0, NOT_BORROWED - 1);

    let ref_data = Ref::new(&data, state);

    let new_ref = Ref::map(ref_data, |data| &data[1]);

    assert_eq!(state.raw(&accounts).borrow_state, NOT_BORROWED - 1);
    assert_eq!(*new_ref, 1);

    let Ok(new_ref) = Ref::filter_map(new_ref, |_| Some(&3)) else {
        unreachable!()
    };

    assert_eq!(state.raw(&accounts).borrow_state, NOT_BORROWED - 1);
    assert_eq!(*new_ref, 3);

    let Ok(new_ref) = Ref::try_map::<_, u8>(new_ref, |_| Ok(&4)) else {
        unreachable!()
    };

    assert_eq!(state.raw(&accounts).borrow_state, NOT_BORROWED - 1);
    assert_eq!(*new_ref, 4);

    let (new_ref, err) = Ref::try_map::<u8, u8>(new_ref, |_| Err(5)).unwrap_err();
    assert_eq!(state.raw(&accounts).borrow_state, NOT_BORROWED - 1);
    assert_eq!(err, 5);
    // Unchanged
    assert_eq!(*new_ref, 4);

    let new_ref = Ref::filter_map(new_ref, |_| Option::<&u8>::None);

    assert_eq!(state.raw(&accounts).borrow_state, NOT_BORROWED - 1);
    assert!(new_ref.is_err());

    new_ref.unwrap_err().drop(&mut accounts);

    assert_eq!(state.raw(&accounts).borrow_state, NOT_BORROWED);
}

#[test]
fn test_data_ref_mut() {
    let mut data: [u8; 4] = [0, 1, 2, 3];
    let (mut accounts, state, _) = one_account(0, 0b_1111_0111);

    let ref_data = RefMut::new(&mut data, state);

    let Ok(mut new_ref) = RefMut::filter_map(ref_data, |data| Ok(&mut data[0])) else {
        unreachable!()
    };

    *new_ref = 4;

    assert_eq!(state.raw(&accounts).borrow_state, 0b_1111_0111);
    assert_eq!(*new_ref, 4);

    new_ref.drop(&mut accounts);

    assert_eq!(data, [4, 1, 2, 3]);
    assert_eq!(state.raw(&accounts).borrow_state, NOT_BORROWED);
}

#[test]
fn test_borrow_data() {
    let mut words = [0u64; (ACCOUNT_STATIC_SIZE + MAX_PERMITTED_DATA_INCREASE) / 8];
    // Set the borrow state.
    words[0] = NOT_BORROWED as u64;
    let input = bytes_of(&words);
    let (mut raw, mut data, _, _) = Account::from_bytes_ptr_not_cloned(input.clone(), ADDRESS);
    raw.account.data_len = 1;
    let mut accounts = Accounts::new();
    let account_info = accounts.insert(raw);

    // Check that we can borrow data and lamports.
    assert!(account_info.can_borrow_data(&accounts).is_ok());
    assert!(account_info.can_borrow_mut_data(&accounts).is_ok());

    // It should be sound to mutate the data while no other borrows exist
    let data_ptr = account_info.data_ptr(&accounts);
    assert_eq!(data_ptr.len, 1);
    account_info.borrow_mut_data_unchecked(&accounts, &mut data)[0] = 1;

    // Borrow immutable data (254 immutable borrows available).
    let mut refs = Vec::new();
    for _ in 0..254 {
        let Ok(data_ref) = account_info.try_borrow_data(&mut accounts, &data) else {
            panic!("Failed to borrow data");
        };
        refs.push(data_ref);
    }
    assert_eq!(refs[253][0], 1);

    // Check that we cannot borrow the data anymore.
    assert!(account_info.can_borrow_data(&accounts).is_err());
    assert!(account_info.try_borrow_data(&mut accounts, &data).is_err());
    assert!(account_info.can_borrow_mut_data(&accounts).is_err());
    // The bytes are out on loan, so a request that must fail gets another copy of them.
    let mut copy = Account::from_bytes_ptr_not_cloned(input, ADDRESS).1;
    assert!(account_info
        .try_borrow_mut_data(&mut accounts, &mut copy)
        .is_err());

    // Drop the immutable borrows.
    for r in refs {
        r.drop(&mut accounts);
    }

    // We should be able to borrow the data again.
    assert!(account_info.can_borrow_data(&accounts).is_ok());
    assert!(account_info.can_borrow_mut_data(&accounts).is_ok());

    // Borrow mutable data.
    let ref_mut = account_info
        .try_borrow_mut_data(&mut accounts, &mut data)
        .unwrap();
    // It should be sound to get the data pointer while the data is borrowed as long as we don't use it
    let _data_ptr = account_info.data_ptr(&accounts);

    // Check that we cannot borrow the data anymore.
    assert!(account_info.can_borrow_data(&accounts).is_err());
    assert!(account_info.try_borrow_data(&mut accounts, &copy).is_err());
    assert!(account_info.can_borrow_mut_data(&accounts).is_err());
    assert!(account_info
        .try_borrow_mut_data(&mut accounts, &mut copy)
        .is_err());

    ref_mut.drop(&mut accounts);

    // We should be able to borrow the data again.
    assert!(account_info.can_borrow_data(&accounts).is_ok());
    assert!(account_info.can_borrow_mut_data(&accounts).is_ok());

    let borrow_state = account_info.raw(&accounts).borrow_state;
    assert_eq!(borrow_state, NOT_BORROWED);
}

#[test]
fn test_realloc() {
    let mut words = [0u64; 100 * 8 + MAX_PERMITTED_DATA_INCREASE / 8];

    // Set the borrow state.
    words[0] = NOT_BORROWED as u64;
    // Set the initial data length to 100.
    //   - index `10` is equal to offset `10 * size_of::<u64>() = 80` bytes.
    words[10] = 100;

    let (raw, mut data, _, _) = Account::from_bytes_ptr_not_cloned(bytes_of(&words), ADDRESS);
    let mut accounts = Accounts::new();
    let account = accounts.insert(raw);

    let data_len = account.data_len(&accounts);

    assert_eq!(data_len, 100);
    assert_eq!(account.resize_delta(&accounts), 0);

    // We should be able to get the data pointer whenever as long as we don't use it while the data is borrowed
    let data_ptr_before = account.data_ptr(&accounts);

    // increase the size.

    account.realloc(&mut accounts, &mut data, 200, false).unwrap();

    let data_ptr_after = account.data_ptr(&accounts);
    // The data pointer should point to the same address regardless of the reallocation
    assert_eq!(data_ptr_before.address, data_ptr_after.address);

    assert_eq!(account.data_len(&accounts), 200);
    assert_eq!(account.resize_delta(&accounts), 100);

    // decrease the size.

    account.realloc(&mut accounts, &mut data, 0, false).unwrap();

    assert_eq!(account.data_len(&accounts), 0);
    assert_eq!(account.resize_delta(&accounts), -100);

    // Invalid reallocation.

    let invalid_realloc = account.realloc(&mut accounts, &mut data, 10_000_000_001, false);
    assert!(invalid_realloc.is_err());

    // Reset to its original size.

    account.realloc(&mut accounts, &mut data, 100, false).unwrap();

    assert_eq!(account.data_len(&accounts), 100);
    assert_eq!(account.resize_delta(&accounts), 0);

    // Consecutive reallocations.

    account.realloc(&mut accounts, &mut data, 200, false).unwrap();
    account.realloc(&mut accounts, &mut data, 50, false).unwrap();
    account.realloc(&mut accounts, &mut data, 500, false).unwrap();

    assert_eq!(account.data_len(&accounts), 500);
    assert_eq!(account.resize_delta(&accounts), 400);

    let data = account.try_borrow_data(&mut accounts, &data).unwrap();
    assert_eq!(data.len(), 500);
}

#[test]
fn copies_point_to_the_same_account() {
    let (mut accounts, info, data) = one_account(3, NOT_BORROWED);
    let copy = info;
    let other = accounts.insert(account_at(0x8_0000, 3, NOT_BORROWED).0);
    assert!(copy == info);
    assert!(other != info);

    let guard = info.try_borrow_data(&mut accounts, &data).unwrap();
    assert!(copy.is_borrowed(&accounts, BorrowState::Borrowed));
    assert!(!other.is_borrowed(&accounts, BorrowState::Borrowed));
    assert!(copy.can_borrow_mut_data(&accounts).is_err());
    assert!(other.can_borrow_mut_data(&accounts).is_ok());
    guard.drop(&mut accounts);

    assert_eq!(copy.set_lamports(&mut accounts, 7), 0);
    assert_eq!(info.lamports(&accounts), 7);
    assert_eq!(other.lamports(&accounts), 0);
}

#[test]
fn pointers_are_compared_by_address_and_length() {
    let (_, info, _) = one_account(3, NOT_BORROWED);
    // The same place, in another set of accounts.
    let (_, same, _) = one_account(3, 0);
    assert!(same == info);
    // The same address with more bytes reserved.
    let (_, longer, _) = one_account(4, NOT_BORROWED);
    assert!(longer != info);
    // An account of another set that is elsewhere in memory.
    let mut elsewhere = Accounts::new();
    let other = elsewhere.insert(account_at(0x8_0000, 3, NOT_BORROWED).0);
    assert!(other != info);
}

#[test]
fn removing_an_account_leaves_the_others() {
    let (mut accounts, info, data) = one_account(3, NOT_BORROWED);
    let other = accounts.insert(account_at(0x8_0000, 5, NOT_BORROWED).0);
    info.set_lamports(&mut accounts, 21);
    let account = accounts.remove(info);
    assert_eq!(account.lamports, 21);
    assert_eq!(other.data_len(&accounts), 5);
    let again = accounts.insert(account);
    assert!(again == info);
    assert_eq!(again.lamports(&accounts), 21);
    assert_eq!(again.borrow_data_unchecked(&accounts, &data), &[1, 2, 3]);
}

#[test]
fn masks_follow_the_borrow_state() {
    for (state, immutable, any, mutable) in [
        (NOT_BORROWED, false, false, false),
        (NOT_BORROWED - 1, true, true, false),
        (1, true, true, false),
        (0, false, true, true),
    ] {
        let (accounts, info, _) = one_account(0, state);
        assert_eq!(info.is_borrowed(&accounts, BorrowState::ImmutablyBorrowed), immutable);
        assert_eq!(info.is_borrowed(&accounts, BorrowState::Borrowed), any);
        assert_eq!(info.is_borrowed(&accounts, BorrowState::MutablyBorrowed), mutable);
    }
}

#[test]
fn checks_at_the_edges_of_the_borrow_state() {
    for (state, shared, exclusive) in [
        (0, false, false),
        (1, false, false),
        (2, true, false),
        (254, true, false),
        (255, true, true),
    ] {
        let (accounts, info, _) = one_account(0, state);
        let refused = Err(ProgramError::AccountBorrowFailed);
        let expected_shared = if shared { Ok(()) } else { refused };
        let expected_exclusive = if exclusive { Ok(()) } else { refused };
        assert_eq!(info.can_borrow_data(&accounts), expected_shared);
        assert_eq!(info.check_borrow_data(&accounts), expected_shared);
        assert_eq!(info.can_borrow_mut_data(&accounts), expected_exclusive);
        assert_eq!(info.check_borrow_mut_data(&accounts), expected_exclusive);
    }
}

#[test]
fn a_refused_borrow_changes_nothing() {
    let (mut accounts, info, mut data) = one_account(2, 1);
    assert_eq!(
        info.try_borrow_data(&mut accounts, &data).unwrap_err(),
        ProgramError::AccountBorrowFailed
    );
    assert_eq!(info.raw(&accounts).borrow_state, 1);
    assert_eq!(
        info.try_borrow_mut_data(&mut accounts, &mut data).unwrap_err(),
        ProgramError::AccountBorrowFailed
    );
    assert_eq!(info.raw(&accounts).borrow_state, 1);
    assert_eq!(info.borrow_data_unchecked(&accounts, &data), &[1, 2]);
}

#[test]
fn drop_undoes_borrow() {
    let (mut accounts, info, mut data) = one_account(2, NOT_BORROWED);
    let first = info.try_borrow_data(&mut accounts, &data).unwrap();
    let second = info.try_borrow_data(&mut accounts, &data).unwrap();
    assert_eq!(info.raw(&accounts).borrow_state, 253);
    first.drop(&mut accounts);
    assert_eq!(info.raw(&accounts).borrow_state, 254);
    second.drop(&mut accounts);
    assert_eq!(info.raw(&accounts).borrow_state, 255);
    let guard = info.try_borrow_mut_data(&mut accounts, &mut data).unwrap();
    assert_eq!(info.raw(&accounts).borrow_state, 0);
    guard.drop(&mut accounts);
    assert_eq!(info.raw(&accounts).borrow_state, 255);
}

#[test]
fn data_written_through_a_guard_are_read_back() {
    let (mut accounts, info, mut data) = one_account(4, NOT_BORROWED);
    let mut guard = info.try_borrow_mut_data(&mut accounts, &mut data).unwrap();
    assert_eq!(guard.len(), 4);
    assert_eq!(*guard, [1, 2, 3, 4]);
    guard[2] = 9;
    guard.drop(&mut accounts);
    let guard = info.try_borrow_data(&mut accounts, &data).unwrap();
    assert_eq!(*guard, [1, 2, 9, 4]);
}

#[test]
fn mapping_a_mutable_guard() {
    let (mut accounts, info, mut data) = one_account(4, NOT_BORROWED);
    let guard = info.try_borrow_mut_data(&mut accounts, &mut data).unwrap();
    let guard = RefMut::map(guard, |bytes| &mut bytes[1..3]);
    assert_eq!(*guard, [2, 3]);
    let (guard, error) = RefMut::try_map::<u8, u8>(guard, |bytes| {
        bytes[0] = 20;
        Err((bytes, 5))
    })
    .unwrap_err();
    assert_eq!(error, 5);
    assert_eq!(*guard, [20, 3]);
    let guard = RefMut::filter_map::<u8, _>(guard, |bytes| Err(bytes)).unwrap_err();
    let Ok(mut guard) = RefMut::try_map::<u8, u8>(guard, |bytes| Ok(&mut bytes[1])) else {
        unreachable!()
    };
    assert_eq!(*guard, 3);
    *guard = 30;
    assert_eq!(info.raw(&accounts).borrow_state, 0);
    guard.drop(&mut accounts);
    assert_eq!(info.borrow_data_unchecked(&accounts, &data), &[1, 20, 30, 4]);
    assert_eq!(info.raw(&accounts).borrow_state, NOT_BORROWED);
}

#[test]
fn lamports_and_owner_are_read_back() {
    let (mut accounts, info, _) = one_account(2, NOT_BORROWED);
    assert_eq!(info.set_lamports(&mut accounts, 40), 0);
    assert_eq!(info.set_lamports(&mut accounts, 50), 40);
    *info.borrow_lamports(&mut accounts) += 1;
    assert_eq!(info.lamports(&accounts), 51);

    assert!(info.owner_is(&accounts, &[0; 32]));
    let owner = [6u8; 32];
    info.assign(&mut accounts, &owner);
    assert_eq!(info.owner(&accounts), owner);
    assert_eq!(info.owner_ref(&accounts), &owner);
    assert!(info.owner_is(&accounts, &owner));
    assert!(info.is_owned_by(&accounts, &owner));
    let mut other = owner;
    other[31] = 7;
    assert!(!info.owner_is(&accounts, &other));
    assert!(!info.is_owned_by(&accounts, &other));
    assert_eq!(info.owner_with_fn(&accounts, |owner| owner[3] + 1), 7);
    assert_eq!(info.lamports(&accounts), 51);
    assert_eq!(info.data_len(&accounts), 2);
}

#[test]
fn resizing_truncates_or_zero_extends() {
    let (mut accounts, info, mut data) = one_account(4, NOT_BORROWED);
    info.resize(&mut accounts, &mut data, 2).unwrap();
    assert_eq!(info.borrow_data_unchecked(&accounts, &data), &[1, 2]);
    info.resize(&mut accounts, &mut data, 6).unwrap();
    assert_eq!(info.borrow_data_unchecked(&accounts, &data), &[1, 2, 0, 0, 0, 0]);
    info.resize(&mut accounts, &mut data, 6).unwrap();
    assert_eq!(info.resize_delta(&accounts), 2);
    info.resize_unchecked(&mut accounts, &mut data, 1).unwrap();
    assert_eq!(info.borrow_data_unchecked(&accounts, &data), &[1]);
}

#[test]
fn growth_is_limited() {
    let (mut accounts, info, mut data) = one_account(4, NOT_BORROWED);
    let limit = 4 + MAX_PERMITTED_DATA_INCREASE;
    assert_eq!(
        info.resize(&mut accounts, &mut data, limit + 1),
        Err(ProgramError::InvalidRealloc)
    );
    assert_eq!(info.data_len(&accounts), 4);
    assert_eq!(info.resize(&mut accounts, &mut data, limit), Ok(()));
    assert_eq!(info.resize_delta(&accounts), MAX_PERMITTED_DATA_INCREASE as i32);
    // The limit is that of the length in the input, not of the current one.
    assert_eq!(info.resize(&mut accounts, &mut data, 0), Ok(()));
    assert_eq!(info.close(&mut accounts), Ok(()));
    assert_eq!(
        info.resize_unchecked(&mut accounts, &mut data, limit + 1),
        Err(ProgramError::InvalidRealloc)
    );
    assert_eq!(info.resize(&mut accounts, &mut data, limit), Ok(()));
}

#[test]
fn resizing_a_borrowed_account_is_refused() {
    for state in [0, 254] {
        let (mut accounts, info, mut data) = one_account(4, state);
        assert_eq!(
            info.resize(&mut accounts, &mut data, 2),
            Err(ProgramError::AccountBorrowFailed)
        );
        assert_eq!(
            info.realloc(&mut accounts, &mut data, 4, true),
            Err(ProgramError::AccountBorrowFailed)
        );
        assert_eq!(info.data_len(&accounts), 4);
        assert_eq!(info.resize_unchecked(&mut accounts, &mut data, 2), Ok(()));
        assert_eq!(info.data_len(&accounts), 2);
    }
}

#[test]
fn closing_empties_an_account() {
    let (mut accounts, info, data) = one_account(4, NOT_BORROWED);
    info.set_lamports(&mut accounts, 9);
    info.assign(&mut accounts, &[1; 32]);

    let guard = info.try_borrow_data(&mut accounts, &data).unwrap();
    assert_eq!(info.close(&mut accounts), Err(ProgramError::AccountBorrowFailed));
    assert_eq!(info.lamports(&accounts), 9);
    guard.drop(&mut accounts);

    assert!(!info.data_is_empty(&accounts));
    assert_eq!(info.close(&mut accounts), Ok(()));
    assert_eq!(info.lamports(&accounts), 0);
    assert_eq!(info.owner(&accounts), [0; 32]);
    assert!(info.data_is_empty(&accounts));
    assert_eq!(info.resize_delta(&accounts), -4);
    assert_eq!(info.raw(&accounts).borrow_state, NOT_BORROWED);
}

#[test]
fn closing_unchecked_ignores_borrows() {
    let (mut accounts, info, _) = one_account(4, 0);
    info.set_lamports(&mut accounts, 9);
    info.close_unchecked(&mut accounts);
    assert_eq!(info.lamports(&accounts), 0);
    assert_eq!(info.data_len(&accounts), 0);
    assert_eq!(info.raw(&accounts).borrow_state, 0);
}

#[test]
fn key_flags_and_place_of_the_data_stay() {
    let (mut accounts, info, mut data) = one_account(4, NOT_BORROWED);
    let (before, _) = account_at(ADDRESS, 4, NOT_BORROWED);
    info.set_lamports(&mut accounts, 3);
    info.assign(&mut accounts, &[2; 32]);
    info.resize(&mut accounts, &mut data, 100).unwrap();
    let guard = info.try_borrow_mut_data(&mut accounts, &mut data).unwrap();
    assert_eq!(guard.len(), 100);
    guard.drop(&mut accounts);
    info.close(&mut accounts).unwrap();
    let after = info.raw(&accounts);
    assert_eq!(after.key, before.key);
    assert_eq!(after.is_signer, before.is_signer);
    assert_eq!(after.is_writable, before.is_writable);
    assert_eq!(after.executable, before.executable);
    assert_eq!(after.data, before.data);
    assert_eq!(after.borrow_state, before.borrow_state);
}

#[test]
fn growing_and_shrinking_restores_the_data() {
    let (mut accounts, info, mut data) = one_account(4, NOT_BORROWED);
    info.resize(&mut accounts, &mut data, 64).unwrap();
    info.resize(&mut accounts, &mut data, 4).unwrap();
    assert_eq!(info.borrow_data_unchecked(&accounts, &data), &[1, 2, 3, 4]);
    assert_eq!(info.resize_delta(&accounts), 0);
}

#[test]
fn data_that_were_cut_off_do_not_return() {
    let (mut accounts, info, mut data) = one_account(4, NOT_BORROWED);
    for (len, expected) in [
        (1, &[1u8][..]),
        (3, &[1, 0, 0]),
        (2, &[1, 0]),
        (4, &[1, 0, 0, 0]),
        (0, &[]),
        (2, &[0, 0]),
    ] {
        info.resize(&mut accounts, &mut data, len).unwrap();
        assert_eq!(info.borrow_data_unchecked(&accounts, &data), expected);
    }
    info.borrow_mut_data_unchecked(&accounts, &mut data)[0] = 8;
    info.close(&mut accounts).unwrap();
    info.resize(&mut accounts, &mut data, 1).unwrap();
    assert_eq!(info.borrow_data_unchecked(&accounts, &data), &[0]);
}
