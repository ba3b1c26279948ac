use pinocchio::{
    Account, AccountFromPtr, Accounts, ACCOUNT_STATIC_SIZE, MAX_PERMITTED_DATA_INCREASE,
    NON_DUP_MARKER,
};

/// An account whose fields all differ, with five data bytes, and two bytes behind.
fn input_with_account() -> Vec<u8> {
    let mut input = vec![NON_DUP_MARKER, 1, 0, 2, 0xaa, 0xbb, 0xcc, 0xdd];
    input.extend([3u8; 32]);
    input.extend([4u8; 32]);
    input.extend(0x0102_0304_0506_0708u64.to_le_bytes());
    input.extend(5u64.to_le_bytes());
    input.extend([10, 11, 12, 13, 14]);
    input.extend(vec![0x55; MAX_PERMITTED_DATA_INCREASE]);
    input.extend([7, 9]);
    input
}

#[test]
fn fields_are_read_from_their_offsets() {
    let AccountFromPtr::Account { account, data, offset, rest } =
        Account::from_bytes_ptr(input_with_account(), 8)
    else {
        unreachable!()
    };
    assert_eq!(offset, 88 + 5 + 10_240);
    assert_eq!(rest, [7, 9]);
    assert_eq!(account.data.address, 96);
    assert_eq!(account.data.len, 10_245);
    let mut accounts = Accounts::new();
    let info = accounts.insert(account);
    assert_eq!(info.raw(&accounts).borrow_state, 255);
    assert_eq!(info.raw(&accounts).padding, [0xaa, 0xbb, 0xcc, 0xdd]);
    assert!(info.is_signer(&accounts));
    assert!(!info.is_writable(&accounts));
    assert!(info.executable(&accounts));
    assert_eq!(info.key(&accounts), &[3; 32]);
    assert_eq!(info.owner(&accounts), [4; 32]);
    assert_eq!(info.lamports(&accounts), 0x0102_0304_0506_0708);
    assert_eq!(info.data_len(&accounts), 5);
    assert_eq!(info.resize_delta(&accounts), 0);
    assert_eq!(info.borrow_data_unchecked(&accounts, &data), &[10, 11, 12, 13, 14]);
    assert_eq!(info.data_ptr(&accounts).address, 96);
}

#[test]
fn a_repeated_account_is_an_index() {
    let AccountFromPtr::Account { rest, .. } = Account::from_bytes_ptr(input_with_account(), 0)
    else {
        unreachable!()
    };
    let AccountFromPtr::Cloned { index, bytes } = Account::from_bytes_ptr(rest, 0x5000) else {
        unreachable!()
    };
    assert_eq!(index, 7);
    assert_eq!(bytes, [7, 9]);
}

#[test]
fn unchanged_bytes_are_given_back() {
    let before = input_with_account();
    let (account, data, offset, rest) = Account::from_bytes_ptr_not_cloned(before.clone(), 0);
    let mut accounts = Accounts::new();
    let info = accounts.insert(account);
    let mut bytes = accounts.remove(info).into_bytes(data);
    assert_eq!(bytes.len(), offset);
    bytes.extend(rest);
    assert_eq!(bytes, before);
}

#[test]
fn changes_are_in_the_bytes_that_are_given_back() {
    let before = input_with_account();
    let (account, mut data, offset, _) = Account::from_bytes_ptr_not_cloned(before.clone(), 0);
    let mut accounts = Accounts::new();
    let info = accounts.insert(account);
    info.set_lamports(&mut accounts, u64::MAX - 1);
    info.assign(&mut accounts, &[8; 32]);
    info.resize(&mut accounts, &mut data, 7).unwrap();
    info.borrow_mut_data_unchecked(&accounts, &mut data)[0] = 99;
    let bytes = accounts.remove(info).into_bytes(data);

    assert_eq!(bytes.len(), offset);
    assert_eq!(bytes[..40], before[..40]);
    assert_eq!(bytes[40..72], [8; 32]);
    assert_eq!(bytes[72..80], (u64::MAX - 1).to_le_bytes());
    assert_eq!(bytes[80..88], 7u64.to_le_bytes());
    assert_eq!(bytes[88..96], [99, 11, 12, 13, 14, 0, 0, 0x55]);
    assert_eq!(bytes[96..], before[96..offset]);
}

#[test]
fn closing_zeroes_the_48_bytes_before_the_data() {
    let before = input_with_account();
    let (account, data, offset, _) = Account::from_bytes_ptr_not_cloned(before.clone(), 0);
    let mut accounts = Accounts::new();
    let info = accounts.insert(account);
    info.close(&mut accounts).unwrap();
    let bytes = accounts.remove(info).into_bytes(data);
    assert_eq!(bytes[..ACCOUNT_STATIC_SIZE - 48], before[..ACCOUNT_STATIC_SIZE - 48]);
    assert_eq!(bytes[ACCOUNT_STATIC_SIZE - 48..ACCOUNT_STATIC_SIZE], [0; 48]);
    assert_eq!(bytes[ACCOUNT_STATIC_SIZE..], before[ACCOUNT_STATIC_SIZE..offset]);
}

#[test]
fn an_account_that_was_given_back_is_read_again() {
    let (account, mut data, _, rest) = Account::from_bytes_ptr_not_cloned(input_with_account(), 0);
    let mut accounts = Accounts::new();
    let info = accounts.insert(account);
    info.resize(&mut accounts, &mut data, 3).unwrap();
    info.set_lamports(&mut accounts, 12);
    let mut bytes = accounts.remove(info).into_bytes(data);
    bytes.extend(rest);

    let (read, read_data, offset, _) = Account::from_bytes_ptr_not_cloned(bytes, 0);
    assert_eq!(offset, 88 + 3 + 10_240);
    let again = accounts.insert(read);
    assert_eq!(again.lamports(&accounts), 12);
    assert_eq!(again.key(&accounts), &[3; 32]);
    assert_eq!(again.data_len(&accounts), 3);
    assert_eq!(again.borrow_data_unchecked(&accounts, &read_data), &[10, 11, 12]);
}
