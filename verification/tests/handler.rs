use counter_program::{
    process_instruction, process_instruction_with_policy, Account, AccountInfo, ErrorKind,
    OwnerPolicy, Pubkey,
};

fn account_with(data: Vec<u8>) -> AccountInfo {
    AccountInfo::new(Pubkey::default(), false, true, 0, data, Pubkey::default(), false)
}

fn key(fill: u8) -> Pubkey {
    Pubkey { bytes: [fill; 32] }
}

#[test]
fn test_sanity() {
    let program_id = Pubkey::default();
    let key = Pubkey::default();
    let lamports = 0;
    let data = vec![0; std::mem::size_of::<u32>()];
    let owner = Pubkey::default();
    let account = AccountInfo::new(key, false, true, lamports, data, owner, false);

    let instruction_data: Vec<u8> = Vec::new();

    let mut accounts = vec![account];

    assert_eq!(Account::try_from_slice(&accounts[0].data).unwrap().counter, 0);

    process_instruction(&program_id, &mut accounts, &instruction_data).unwrap();

    assert_eq!(Account::try_from_slice(&accounts[0].data).unwrap().counter, 1);

    process_instruction(&program_id, &mut accounts, &instruction_data).unwrap();

    assert_eq!(Account::try_from_slice(&accounts[0].data).unwrap().counter, 2);
}

#[test]
fn stored_bytes_follow_each_call() {
    let mut accounts = vec![account_with(vec![0x00, 0x00, 0x00, 0x00])];
    assert_eq!(process_instruction(&Pubkey::default(), &mut accounts, &[]), Ok(()));
    assert_eq!(accounts[0].data, vec![0x01, 0x00, 0x00, 0x00]);
    assert_eq!(process_instruction(&Pubkey::default(), &mut accounts, &[]), Ok(()));
    assert_eq!(accounts[0].data, vec![0x02, 0x00, 0x00, 0x00]);
}

#[test]
fn one_call_adds_one() {
    for counter in [0u32, 1, 41, 255, 256, 65_535, 0x00ff_ffff, 0x1234_5678, u32::MAX - 1] {
        let mut accounts = vec![account_with(counter.to_le_bytes().to_vec())];
        assert_eq!(process_instruction(&Pubkey::default(), &mut accounts, &[]), Ok(()));
        assert_eq!(accounts[0].data, (counter + 1).to_le_bytes().to_vec());
        assert_eq!(Account::try_from_slice(&accounts[0].data), Ok(Account { counter: counter + 1 }));
    }
}

#[test]
fn carries_run_through_the_bytes() {
    let mut accounts = vec![account_with(vec![0xff, 0x00, 0x00, 0x00])];
    assert_eq!(process_instruction(&Pubkey::default(), &mut accounts, &[]), Ok(()));
    assert_eq!(accounts[0].data, vec![0x00, 0x01, 0x00, 0x00]);

    let mut accounts = vec![account_with(vec![0xff, 0xff, 0xff, 0x00])];
    assert_eq!(process_instruction(&Pubkey::default(), &mut accounts, &[]), Ok(()));
    assert_eq!(accounts[0].data, vec![0x00, 0x00, 0x00, 0x01]);
}

#[test]
fn counter_wraps_at_the_maximum() {
    let mut accounts = vec![account_with(vec![0xff, 0xff, 0xff, 0xff])];
    assert_eq!(Account::try_from_slice(&accounts[0].data).unwrap().counter, 4_294_967_295);
    assert_eq!(process_instruction(&Pubkey::default(), &mut accounts, &[]), Ok(()));
    assert_eq!(accounts[0].data, vec![0x00, 0x00, 0x00, 0x00]);
    assert_eq!(Account::try_from_slice(&accounts[0].data).unwrap().counter, 0);
}

#[test]
fn two_calls_add_two() {
    let mut once = vec![account_with(vec![0; 4])];
    process_instruction(&Pubkey::default(), &mut once, &[]).unwrap();
    let mut twice = once.clone();
    process_instruction(&Pubkey::default(), &mut twice, &[]).unwrap();
    assert_eq!(Account::try_from_slice(&once[0].data).unwrap().counter, 1);
    assert_eq!(Account::try_from_slice(&twice[0].data).unwrap().counter, 2);
    assert_ne!(once, twice);
}

#[test]
fn two_calls_wrap_together() {
    let mut accounts = vec![account_with((u32::MAX - 1).to_le_bytes().to_vec())];
    process_instruction(&Pubkey::default(), &mut accounts, &[]).unwrap();
    assert_eq!(accounts[0].data, vec![0xff; 4]);
    process_instruction(&Pubkey::default(), &mut accounts, &[]).unwrap();
    assert_eq!(accounts[0].data, vec![0x00; 4]);
}

#[test]
fn no_account_is_refused() {
    let mut accounts: Vec<AccountInfo> = Vec::new();
    assert_eq!(
        process_instruction(&Pubkey::default(), &mut accounts, &[1, 2, 3]),
        Err(ErrorKind::MissingAccount)
    );
    assert!(accounts.is_empty());
}

#[test]
fn short_buffers_are_refused_and_kept() {
    for data in [vec![], vec![7], vec![7, 8], vec![7, 8, 9]] {
        let mut accounts = vec![account_with(data.clone()), account_with(vec![5, 0, 0, 0])];
        let before = accounts.clone();
        assert_eq!(
            process_instruction(&Pubkey::default(), &mut accounts, &[]),
            Err(ErrorKind::DeserializationError)
        );
        assert_eq!(accounts, before);
        assert_eq!(accounts[0].data, data);
    }
}

#[test]
fn long_buffers_are_refused_and_kept() {
    for data in [vec![1, 0, 0, 0, 0], vec![0; 8], vec![9; 64]] {
        let mut accounts = vec![account_with(data.clone())];
        assert_eq!(
            process_instruction(&Pubkey::default(), &mut accounts, &[]),
            Err(ErrorKind::DeserializationError)
        );
        assert_eq!(accounts[0].data, data);
    }
}

#[test]
fn only_the_first_buffer_changes() {
    let first = AccountInfo::new(key(1), true, true, 500, vec![9, 0, 0, 0], key(2), false);
    let second = AccountInfo::new(key(3), false, false, 7, vec![9, 0, 0, 0], key(4), true);
    let third = account_with(vec![1, 2]);
    let mut accounts = vec![first.clone(), second.clone(), third.clone()];
    assert_eq!(process_instruction(&key(5), &mut accounts, &[0xaa]), Ok(()));
    assert_eq!(accounts.len(), 3);
    assert_eq!(
        accounts[0],
        AccountInfo::new(key(1), true, true, 500, vec![10, 0, 0, 0], key(2), false)
    );
    assert_eq!(accounts[1], second);
    assert_eq!(accounts[2], third);
}

#[test]
fn instruction_data_is_ignored() {
    let mut plain = vec![account_with(vec![3, 0, 0, 0])];
    let mut loaded = plain.clone();
    assert_eq!(process_instruction(&Pubkey::default(), &mut plain, &[]), Ok(()));
    assert_eq!(process_instruction(&Pubkey::default(), &mut loaded, &[0xde, 0xad, 0xbe, 0xef]), Ok(()));
    assert_eq!(plain, loaded);
    assert_eq!(plain[0].data, vec![4, 0, 0, 0]);
}

#[test]
fn owner_is_not_checked_by_default() {
    let stranger = AccountInfo::new(key(1), false, true, 0, vec![0; 4], key(8), false);
    let mut accounts = vec![stranger];
    assert_eq!(process_instruction(&key(9), &mut accounts, &[]), Ok(()));
    assert_eq!(accounts[0].data, vec![1, 0, 0, 0]);

    let mut accounts = vec![AccountInfo::new(key(1), false, true, 0, vec![0; 4], key(8), false)];
    assert_eq!(
        process_instruction_with_policy(OwnerPolicy::Unchecked, &key(9), &mut accounts, &[]),
        Ok(())
    );
    assert_eq!(accounts[0].data, vec![1, 0, 0, 0]);
}

#[test]
fn enforced_policy_refuses_a_foreign_owner() {
    let mut accounts = vec![AccountInfo::new(key(1), false, true, 0, vec![0; 4], key(8), false)];
    let before = accounts.clone();
    assert_eq!(
        process_instruction_with_policy(OwnerPolicy::Enforced, &key(9), &mut accounts, &[]),
        Err(ErrorKind::IncorrectOwner)
    );
    assert_eq!(accounts, before);
}

#[test]
fn enforced_policy_sees_a_difference_in_the_last_byte() {
    let mut owner = key(8);
    owner.bytes[31] = 9;
    let mut accounts = vec![AccountInfo::new(key(1), false, true, 0, vec![0; 4], owner, false)];
    assert_eq!(
        process_instruction_with_policy(OwnerPolicy::Enforced, &key(8), &mut accounts, &[]),
        Err(ErrorKind::IncorrectOwner)
    );
    assert_eq!(accounts[0].data, vec![0; 4]);
}

#[test]
fn enforced_policy_accepts_the_own_account() {
    let mut accounts = vec![AccountInfo::new(key(1), false, true, 0, vec![41, 0, 0, 0], key(9), false)];
    assert_eq!(
        process_instruction_with_policy(OwnerPolicy::Enforced, &key(9), &mut accounts, &[]),
        Ok(())
    );
    assert_eq!(accounts[0].data, vec![42, 0, 0, 0]);
}

#[test]
fn enforced_policy_checks_in_order() {
    let mut none: Vec<AccountInfo> = Vec::new();
    assert_eq!(
        process_instruction_with_policy(OwnerPolicy::Enforced, &key(9), &mut none, &[]),
        Err(ErrorKind::MissingAccount)
    );

    let mut foreign_and_short = vec![AccountInfo::new(key(1), false, true, 0, vec![1], key(8), false)];
    assert_eq!(
        process_instruction_with_policy(OwnerPolicy::Enforced, &key(9), &mut foreign_and_short, &[]),
        Err(ErrorKind::IncorrectOwner)
    );
    assert_eq!(foreign_and_short[0].data, vec![1]);

    let mut own_and_short = vec![AccountInfo::new(key(1), false, true, 0, vec![1], key(9), false)];
    assert_eq!(
        process_instruction_with_policy(OwnerPolicy::Enforced, &key(9), &mut own_and_short, &[]),
        Err(ErrorKind::DeserializationError)
    );
    assert_eq!(own_and_short[0].data, vec![1]);
}
