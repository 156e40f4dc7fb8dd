use solana_program::pubkey::Pubkey;
use transfer_lamports::account::Account;
use transfer_lamports::derivation::AuthorityProof;
use transfer_lamports::executor::{
    check_within_limit, creation_request, execute, is_authorized, move_funds, plan_creation,
    process_instruction, try_process_instruction, validate, vault_seed_tag, CreateRequest,
    LedgerReply, TransferPlan, ACCOUNTS_NEEDED, SOURCE_INDEX, VAULT_FUNDING, VAULT_INDEX,
    VAULT_SEED_TAG, VAULT_SPACE,
};
use transfer_lamports::payload::encode;
use transfer_lamports::{Identity, TransferError};

fn program_id() -> Identity {
    let key: Pubkey = "H3mNtWPT1MFbNkb5J4JHmimzWhp4oNB7KawhaPrZsBtR".parse().unwrap();
    Identity::new(key.to_bytes())
}

fn system_ledger() -> Identity {
    Identity::new([0u8; 32])
}

fn source_id() -> Identity {
    Identity::new([0x53u8; 32])
}

fn derived() -> (Identity, u8) {
    transfer_lamports::derivation::derive(&VAULT_SEED_TAG, &source_id(), &program_id()).unwrap()
}

/// The vault without storage, the source with `balance`, the system account.
fn fresh_accounts(balance: u64) -> Vec<Account> {
    let (vault, _) = derived();
    vec![
        Account::new(vault, 0, system_ledger()),
        Account::new(source_id(), balance, system_ledger()),
        Account::new(system_ledger(), 1, system_ledger()),
    ]
}

/// The address that `bump` gives for `source` under the program, where it
/// gives one, straight from the platform.
fn candidate(source: &Identity, bump: u8) -> Option<Identity> {
    let program = Pubkey::new_from_array(program_id().to_bytes());
    let seeds: [&[u8]; 3] = [b"recipient", &source.bytes, &[bump]];
    Pubkey::create_program_address(&seeds, &program).ok().map(|key| Identity::new(key.to_bytes()))
}

/// A vault without storage at `vault`, `source` with a million and one
/// thousand lamports, the system account.
fn accounts_at(vault: Identity, source: Identity) -> Vec<Account> {
    vec![
        Account::new(vault, 0, system_ledger()),
        Account::new(source, 1_001_000, system_ledger()),
        Account::new(system_ledger(), 1, system_ledger()),
    ]
}

/// The same with a vault that the ledger has created before.
fn settled_accounts(vault_balance: u64, balance: u64) -> Vec<Account> {
    let mut accounts = fresh_accounts(balance);
    accounts[0].balance = vault_balance;
    accounts[0].owner_program = program_id();
    accounts[0].data = vec![0u8; 1024];
    accounts
}

#[test]
fn constants_of_the_executor() {
    assert_eq!(&VAULT_SEED_TAG, b"recipient");
    assert_eq!(vault_seed_tag(), b"recipient".to_vec());
    assert_eq!(VAULT_SPACE, 1024);
    assert_eq!(VAULT_FUNDING, 1_000_000);
    assert_eq!((VAULT_INDEX, SOURCE_INDEX, ACCOUNTS_NEEDED), (0, 1, 3));
}

#[test]
fn transfer_into_a_new_vault() {
    let (vault, bump) = derived();
    let payload = encode(bump, 500_000_000);
    let mut accounts = fresh_accounts(1_000_000_000);
    assert!(check_within_limit(&accounts, &payload, true, LedgerReply::Created));

    let request = creation_request(&program_id(), &accounts, &payload).unwrap();
    assert_eq!(
        request,
        Some(CreateRequest {
            funder: source_id(),
            account: vault,
            lamports: 1_000_000,
            space: 1024,
            owner: program_id(),
            authority: AuthorityProof { seed_tag: b"recipient".to_vec(), source: source_id(), bump },
        })
    );

    assert_eq!(
        process_instruction(&program_id(), &mut accounts, &payload, LedgerReply::Created),
        Ok(())
    );
    assert_eq!(accounts.len(), 3);
    assert_eq!(accounts[1].balance, 500_000_000 - 1_000_000);
    assert_eq!(accounts[0].balance, 500_000_000);
    assert_eq!(accounts[0].address, vault);
    assert_eq!(accounts[0].owner_program, program_id());
    assert_eq!(accounts[0].data, vec![0u8; 1024]);
    assert_eq!(accounts[1], Account::new(source_id(), 499_000_000, system_ledger()));
    assert_eq!(accounts[2], Account::new(system_ledger(), 1, system_ledger()));
}

#[test]
fn transfer_above_the_balance_is_refused() {
    let (_, bump) = derived();
    let payload = encode(bump, 2_000_000_000);
    let mut accounts = fresh_accounts(1_000_000_000);
    let before = accounts.clone();
    assert_eq!(
        process_instruction(&program_id(), &mut accounts, &payload, LedgerReply::Created),
        Err(TransferError::InsufficientFunds)
    );
    assert_eq!(accounts, before);
    assert_eq!(accounts[1].balance, 1_000_000_000);
    assert_eq!(
        creation_request(&program_id(), &accounts, &payload),
        Err(TransferError::InsufficientFunds)
    );
}

#[test]
fn transfer_into_an_existing_vault_conserves_the_total() {
    let (_, bump) = derived();
    let mut accounts = settled_accounts(40, 1_000);
    let before = accounts.clone();
    assert_eq!(creation_request(&program_id(), &accounts, &encode(bump, 250)), Ok(None));
    assert_eq!(
        process_instruction(&program_id(), &mut accounts, &encode(bump, 250), LedgerReply::Rejected),
        Ok(())
    );
    assert_eq!(accounts[0].balance - before[0].balance, 250);
    assert_eq!(before[1].balance - accounts[1].balance, 250);
    assert_eq!(
        accounts[0].balance + accounts[1].balance,
        before[0].balance + before[1].balance
    );
    assert_eq!(accounts[0].data, before[0].data);
    assert_eq!(accounts[0].owner_program, before[0].owner_program);
    assert_eq!(accounts[2], before[2]);
}

#[test]
fn the_whole_balance_can_move() {
    let (_, bump) = derived();
    let mut accounts = settled_accounts(0, 777);
    assert_eq!(
        process_instruction(&program_id(), &mut accounts, &encode(bump, 777), LedgerReply::Created),
        Ok(())
    );
    assert_eq!((accounts[0].balance, accounts[1].balance), (777, 0));

    let mut accounts = settled_accounts(0, 777);
    let before = accounts.clone();
    assert_eq!(
        process_instruction(&program_id(), &mut accounts, &encode(bump, 778), LedgerReply::Created),
        Err(TransferError::InsufficientFunds)
    );
    assert_eq!(accounts, before);
}

#[test]
fn a_zero_transfer_changes_no_balance() {
    let (_, bump) = derived();
    let mut accounts = settled_accounts(5, 0);
    let before = accounts.clone();
    assert_eq!(
        process_instruction(&program_id(), &mut accounts, &encode(bump, 0), LedgerReply::Created),
        Ok(())
    );
    assert_eq!(accounts, before);
}

#[test]
fn the_source_must_cover_the_creation_too() {
    let (_, bump) = derived();
    let payload = encode(bump, 5_000);

    let mut accounts = fresh_accounts(5_000 + 1_000_000 - 1);
    let before = accounts.clone();
    assert_eq!(
        process_instruction(&program_id(), &mut accounts, &payload, LedgerReply::Created),
        Err(TransferError::InsufficientFunds)
    );
    assert_eq!(accounts, before);

    let mut accounts = fresh_accounts(5_000 + 1_000_000);
    assert_eq!(
        process_instruction(&program_id(), &mut accounts, &payload, LedgerReply::Created),
        Ok(())
    );
    assert_eq!((accounts[0].balance, accounts[1].balance), (5_000, 0));
}

#[test]
fn a_ledger_that_rejects_the_creation_fails_the_transfer() {
    let (_, bump) = derived();
    let payload = encode(bump, 500_000_000);
    let mut accounts = fresh_accounts(1_000_000_000);
    let before = accounts.clone();
    assert_eq!(
        process_instruction(&program_id(), &mut accounts, &payload, LedgerReply::Rejected),
        Err(TransferError::LedgerCreateFailed)
    );
    assert_eq!(accounts, before);
}

#[test]
fn a_malformed_payload_is_refused_first() {
    let (_, bump) = derived();
    let mut payload = encode(bump, 1);
    payload.push(0);
    let mut accounts = fresh_accounts(10);
    let before = accounts.clone();
    assert_eq!(
        process_instruction(&program_id(), &mut accounts, &payload, LedgerReply::Created),
        Err(TransferError::MalformedPayload)
    );
    assert_eq!(accounts, before);

    let mut none: Vec<Account> = Vec::new();
    assert_eq!(
        process_instruction(&program_id(), &mut none, &[], LedgerReply::Created),
        Err(TransferError::MalformedPayload)
    );
    assert_eq!(creation_request(&program_id(), &none, &[1, 2, 3]), Err(TransferError::MalformedPayload));
}

#[test]
fn fewer_than_three_accounts_are_refused() {
    let (_, bump) = derived();
    let payload = encode(bump, 1);
    for keep in 0..3 {
        let mut accounts = settled_accounts(0, 10);
        accounts.truncate(keep);
        let before = accounts.clone();
        assert_eq!(
            process_instruction(&program_id(), &mut accounts, &payload, LedgerReply::Created),
            Err(TransferError::AccountMissing)
        );
        assert_eq!(accounts, before);
    }
}

#[test]
fn a_fourth_account_is_left_alone() {
    let (_, bump) = derived();
    let mut accounts = settled_accounts(0, 10);
    accounts.push(Account::new(Identity::new([9u8; 32]), 99, system_ledger()));
    assert_eq!(
        process_instruction(&program_id(), &mut accounts, &encode(bump, 4), LedgerReply::Created),
        Ok(())
    );
    assert_eq!((accounts[0].balance, accounts[1].balance), (4, 6));
    assert_eq!(accounts[3], Account::new(Identity::new([9u8; 32]), 99, system_ledger()));
}

#[test]
fn another_bump_is_refused() {
    let (_, bump) = derived();
    let mut others = vec![bump - 1, 0];
    if bump < 255 {
        others.push(bump + 1);
        others.push(255);
    }
    for other in others {
        let mut accounts = fresh_accounts(1_000_000_000);
        let before = accounts.clone();
        assert_eq!(
            process_instruction(&program_id(), &mut accounts, &encode(other, 1), LedgerReply::Created),
            Err(TransferError::BumpMismatch)
        );
        assert_eq!(accounts, before);
        assert_eq!(
            creation_request(&program_id(), &accounts, &encode(other, 1)),
            Err(TransferError::BumpMismatch)
        );
    }
}

#[test]
fn a_bump_mismatch_comes_before_the_funds_check() {
    let (_, bump) = derived();
    let mut accounts = fresh_accounts(10);
    assert_eq!(
        process_instruction(&program_id(), &mut accounts, &encode(bump - 1, 11), LedgerReply::Created),
        Err(TransferError::BumpMismatch)
    );
}

#[test]
fn another_vault_source_or_program_is_refused() {
    let (_, bump) = derived();
    let payload = encode(bump, 1);

    let mut accounts = fresh_accounts(10);
    accounts[0].address = Identity::new([0x77u8; 32]);
    assert_eq!(
        process_instruction(&program_id(), &mut accounts, &payload, LedgerReply::Created),
        Err(TransferError::BumpMismatch)
    );

    let mut accounts = fresh_accounts(10);
    accounts[1].address = Identity::new([0x54u8; 32]);
    assert_eq!(
        process_instruction(&program_id(), &mut accounts, &payload, LedgerReply::Created),
        Err(TransferError::BumpMismatch)
    );

    let mut accounts = fresh_accounts(10);
    assert_eq!(
        process_instruction(&system_ledger(), &mut accounts, &payload, LedgerReply::Created),
        Err(TransferError::BumpMismatch)
    );

    let mut accounts = fresh_accounts(10);
    accounts.swap(0, 1);
    assert_eq!(
        process_instruction(&program_id(), &mut accounts, &payload, LedgerReply::Created),
        Err(TransferError::BumpMismatch)
    );
}

#[test]
fn is_authorized_runs_the_derivation_again() {
    let (_, bump) = derived();
    let accounts = fresh_accounts(10);
    assert!(is_authorized(&program_id(), &accounts, &encode(bump, 1)));
    assert!(is_authorized(&program_id(), &accounts, &encode(bump, u64::MAX)));
    assert!(!is_authorized(&program_id(), &accounts, &encode(bump - 1, 1)));
    assert!(!is_authorized(&system_ledger(), &accounts, &encode(bump, 1)));
    assert!(!is_authorized(&program_id(), &accounts, &encode(bump, 1)[..8]));
    assert!(!is_authorized(&program_id(), &accounts[..2].to_vec(), &encode(bump, 1)));
}

#[test]
fn execute_takes_the_authority_as_given() {
    let vault = Identity::new([1u8; 32]);
    let source = Identity::new([2u8; 32]);
    let program = Identity::new([3u8; 32]);
    let start = vec![
        Account::new(vault, 0, system_ledger()),
        Account::new(source, 1_000_000_000, system_ledger()),
        Account::new(system_ledger(), 0, system_ledger()),
    ];
    let payload = encode(7, 500_000_000);

    let mut accounts = start.clone();
    assert_eq!(execute(&program, &mut accounts, &payload, true, LedgerReply::Created), Ok(()));
    assert_eq!(accounts[0].balance, 500_000_000);
    assert_eq!(accounts[1].balance, 499_000_000);
    assert_eq!(accounts[0].owner_program, program);
    assert_eq!(accounts[0].data.len(), 1024);

    let mut accounts = start.clone();
    assert_eq!(
        execute(&program, &mut accounts, &payload, false, LedgerReply::Created),
        Err(TransferError::BumpMismatch)
    );
    assert_eq!(accounts, start);

    let mut accounts = start.clone();
    assert_eq!(
        execute(&program, &mut accounts, &encode(7, 2_000_000_000), true, LedgerReply::Created),
        Err(TransferError::InsufficientFunds)
    );
    assert_eq!(accounts, start);

    let mut accounts = start.clone();
    assert_eq!(
        execute(&program, &mut accounts, &payload, true, LedgerReply::Rejected),
        Err(TransferError::LedgerCreateFailed)
    );
    assert_eq!(accounts, start);
}

#[test]
fn the_checks_come_in_a_fixed_order() {
    let program = Identity::new([3u8; 32]);
    let one = vec![Account::new(Identity::new([1u8; 32]), 0, system_ledger())];
    let three = vec![
        Account::new(Identity::new([1u8; 32]), 0, system_ledger()),
        Account::new(Identity::new([2u8; 32]), 5, system_ledger()),
        Account::new(system_ledger(), 0, system_ledger()),
    ];
    assert_eq!(validate(&one, &[0u8; 8], false), Err(TransferError::MalformedPayload));
    assert_eq!(validate(&one, &encode(1, 9), false), Err(TransferError::AccountMissing));
    assert_eq!(validate(&three, &encode(1, 9), false), Err(TransferError::BumpMismatch));
    assert_eq!(validate(&three, &encode(1, 9), true), Err(TransferError::InsufficientFunds));
    assert_eq!(validate(&three, &encode(1, 5), true), Err(TransferError::InsufficientFunds));
    let mut funded = three.clone();
    funded[1].balance = 1_000_005;
    assert_eq!(
        validate(&funded, &encode(1, 5), true),
        Ok(TransferPlan { bump: 1, amount: 5, create_vault: true })
    );
    let mut existing = three.clone();
    existing[0].data = vec![1, 2, 3];
    assert_eq!(
        validate(&existing, &encode(1, 5), true),
        Ok(TransferPlan { bump: 1, amount: 5, create_vault: false })
    );
    assert_eq!(plan_creation(&program, &existing, &encode(1, 5), true), Ok(None));
    assert_eq!(
        plan_creation(&program, &funded, &encode(1, 5), true),
        Ok(Some(CreateRequest {
            funder: Identity::new([2u8; 32]),
            account: Identity::new([1u8; 32]),
            lamports: VAULT_FUNDING,
            space: VAULT_SPACE as u64,
            owner: program,
            authority: AuthorityProof {
                seed_tag: b"recipient".to_vec(),
                source: Identity::new([2u8; 32]),
                bump: 1,
            },
        }))
    );
    assert_eq!(
        plan_creation(&program, &three, &encode(1, 5), false),
        Err(TransferError::BumpMismatch)
    );
}

#[test]
fn an_existing_vault_keeps_its_storage_and_owner() {
    let program = Identity::new([3u8; 32]);
    let owner = Identity::new([8u8; 32]);
    let mut accounts = vec![
        Account::new(Identity::new([1u8; 32]), 10, owner),
        Account::new(Identity::new([2u8; 32]), 5, system_ledger()),
        Account::new(system_ledger(), 0, system_ledger()),
    ];
    accounts[0].data = vec![4, 5, 6];
    assert_eq!(execute(&program, &mut accounts, &encode(1, 5), true, LedgerReply::Rejected), Ok(()));
    assert_eq!(accounts[0].data, vec![4, 5, 6]);
    assert_eq!(accounts[0].owner_program, owner);
    assert_eq!((accounts[0].balance, accounts[1].balance), (15, 0));
}

#[test]
fn move_funds_moves_or_leaves_both_balances() {
    let mut accounts = vec![
        Account::new(Identity::new([1u8; 32]), 10, system_ledger()),
        Account::new(Identity::new([2u8; 32]), 30, system_ledger()),
    ];
    assert_eq!(move_funds(&mut accounts, 30), Ok(()));
    assert_eq!((accounts[0].balance, accounts[1].balance), (40, 0));
    assert_eq!(move_funds(&mut accounts, 1), Err(TransferError::InsufficientFunds));
    assert_eq!((accounts[0].balance, accounts[1].balance), (40, 0));
    assert_eq!(move_funds(&mut accounts, 0), Ok(()));
    assert_eq!((accounts[0].balance, accounts[1].balance), (40, 0));
    accounts.pop();
    assert_eq!(move_funds(&mut accounts, 0), Err(TransferError::AccountMissing));
    assert_eq!(accounts[0].balance, 40);
}

#[test]
fn move_funds_fills_the_vault_to_the_limit() {
    let mut accounts = vec![
        Account::new(Identity::new([1u8; 32]), u64::MAX - 5, system_ledger()),
        Account::new(Identity::new([2u8; 32]), 7, system_ledger()),
    ];
    assert_eq!(move_funds(&mut accounts, 5), Ok(()));
    assert_eq!((accounts[0].balance, accounts[1].balance), (u64::MAX, 2));
    assert_eq!(move_funds(&mut accounts, 3), Err(TransferError::InsufficientFunds));
    assert_eq!((accounts[0].balance, accounts[1].balance), (u64::MAX, 2));
    assert_eq!(move_funds(&mut accounts, 0), Ok(()));
    assert_eq!((accounts[0].balance, accounts[1].balance), (u64::MAX, 2));
}

#[test]
fn only_a_transfer_that_would_settle_can_pass_the_limit() {
    let full = vec![
        Account::new(Identity::new([1u8; 32]), u64::MAX - 5, system_ledger()),
        Account::new(Identity::new([2u8; 32]), 2_000_000, system_ledger()),
        Account::new(system_ledger(), 0, system_ledger()),
    ];
    assert!(check_within_limit(&full, &encode(1, 5), true, LedgerReply::Created));
    assert!(!check_within_limit(&full, &encode(1, 6), true, LedgerReply::Created));
    assert!(!check_within_limit(&full, &encode(1, 1_000_000), true, LedgerReply::Created));

    // Refused anyway: by the ledger, for the bump, for the funds, for the
    // payload, for the accounts.
    assert!(check_within_limit(&full, &encode(1, 6), true, LedgerReply::Rejected));
    assert!(check_within_limit(&full, &encode(1, 6), false, LedgerReply::Created));
    assert!(check_within_limit(&full, &encode(1, 1_000_001), true, LedgerReply::Created));
    assert!(check_within_limit(&full, &encode(1, u64::MAX), true, LedgerReply::Created));
    assert!(check_within_limit(&full, &[1, 6], true, LedgerReply::Created));
    assert!(check_within_limit(&full[..2].to_vec(), &encode(1, 6), true, LedgerReply::Created));
    assert!(check_within_limit(&Vec::new(), &encode(1, 6), true, LedgerReply::Created));

    // With storage the ledger is not asked, so its answer refuses nothing.
    let mut existing = full.clone();
    existing[0].data = vec![0u8; 1024];
    assert!(!check_within_limit(&existing, &encode(1, 6), true, LedgerReply::Rejected));
    assert!(check_within_limit(&existing, &encode(1, 5), true, LedgerReply::Rejected));

    for (amount, reply) in [(6u64, LedgerReply::Rejected), (1_000_001u64, LedgerReply::Created)] {
        let mut accounts = full.clone();
        assert!(execute(&program_id(), &mut accounts, &encode(1, amount), true, reply).is_err());
        assert_eq!(accounts, full);
    }
    let mut accounts = full.clone();
    assert_eq!(
        execute(&program_id(), &mut accounts, &encode(1, 5), true, LedgerReply::Created),
        Ok(())
    );
    assert_eq!((accounts[0].balance, accounts[1].balance), (u64::MAX, 999_995));
}

#[test]
fn a_transfer_past_the_limit_is_not_processed() {
    let (_, bump) = derived();
    let mut accounts = settled_accounts(u64::MAX - 5, 100);
    let before = accounts.clone();
    assert_eq!(
        try_process_instruction(&program_id(), &mut accounts, &encode(bump, 6), LedgerReply::Created),
        None
    );
    assert_eq!(accounts, before);
    assert_eq!(
        try_process_instruction(&program_id(), &mut accounts, &encode(bump, 5), LedgerReply::Created),
        Some(Ok(()))
    );
    assert_eq!((accounts[0].balance, accounts[1].balance), (u64::MAX, 95));
}

#[test]
fn a_refused_transfer_into_a_full_vault_is_processed() {
    let (_, bump) = derived();
    let start = settled_accounts(u64::MAX, 100);
    let refused = [
        (encode(bump, 101), TransferError::InsufficientFunds),
        (encode(bump - 1, 6), TransferError::BumpMismatch),
        (encode(0, 6), TransferError::BumpMismatch),
        (vec![bump, 6], TransferError::MalformedPayload),
    ];
    for (payload, error) in refused {
        let mut accounts = start.clone();
        assert_eq!(
            try_process_instruction(&program_id(), &mut accounts, &payload, LedgerReply::Created),
            Some(Err(error))
        );
        assert_eq!(accounts, start);
        let mut accounts = start.clone();
        assert_eq!(
            process_instruction(&program_id(), &mut accounts, &payload, LedgerReply::Created),
            Err(error)
        );
        assert_eq!(accounts, start);
    }
    let mut accounts = start[..2].to_vec();
    assert_eq!(
        try_process_instruction(&program_id(), &mut accounts, &encode(bump, 6), LedgerReply::Created),
        Some(Err(TransferError::AccountMissing))
    );
}

#[test]
fn try_process_instruction_settles_like_process_instruction() {
    let (_, bump) = derived();
    let payload = encode(bump, 500_000_000);
    let mut tried = fresh_accounts(1_000_000_000);
    let mut processed = fresh_accounts(1_000_000_000);
    assert_eq!(
        try_process_instruction(&program_id(), &mut tried, &payload, LedgerReply::Created),
        Some(process_instruction(&program_id(), &mut processed, &payload, LedgerReply::Created))
    );
    assert_eq!(tried, processed);
    assert_eq!((tried[0].balance, tried[1].balance), (500_000_000, 499_000_000));

    let mut tried = fresh_accounts(1_000_000_000);
    assert_eq!(
        try_process_instruction(&program_id(), &mut tried, &payload, LedgerReply::Rejected),
        Some(Err(TransferError::LedgerCreateFailed))
    );
    assert_eq!(tried, fresh_accounts(1_000_000_000));
}

#[test]
fn a_lower_bump_is_refused_with_its_own_address() {
    let mut tried: u32 = 0;
    for seed in 0u8..8 {
        let source = Identity::new([seed; 32]);
        let (vault, bump) =
            transfer_lamports::derivation::derive(&VAULT_SEED_TAG, &source, &program_id()).unwrap();
        for lower in 1..bump {
            let Some(address) = candidate(&source, lower) else {
                continue;
            };
            assert_ne!(address, vault);
            tried += 1;
            let payload = encode(lower, 1_000);
            let mut accounts = accounts_at(address, source);
            let before = accounts.clone();
            assert!(!is_authorized(&program_id(), &accounts, &payload));
            assert_eq!(
                creation_request(&program_id(), &accounts, &payload),
                Err(TransferError::BumpMismatch)
            );
            assert_eq!(
                process_instruction(&program_id(), &mut accounts, &payload, LedgerReply::Created),
                Err(TransferError::BumpMismatch)
            );
            assert_eq!(accounts, before);
        }
        let mut accounts = accounts_at(vault, source);
        assert_eq!(
            process_instruction(&program_id(), &mut accounts, &encode(bump, 1_000), LedgerReply::Created),
            Ok(())
        );
        assert_eq!((accounts[0].balance, accounts[1].balance), (1_000, 0));
    }
    assert!(tried >= 8);
}

#[test]
fn bump_zero_is_refused_with_its_own_address() {
    let mut tried: u32 = 0;
    for seed in 0u8..32 {
        let source = Identity::new([seed; 32]);
        let Some(address) = candidate(&source, 0) else {
            continue;
        };
        tried += 1;
        let payload = encode(0, 1_000);
        let mut accounts = accounts_at(address, source);
        let before = accounts.clone();
        assert!(!is_authorized(&program_id(), &accounts, &payload));
        assert_eq!(
            creation_request(&program_id(), &accounts, &payload),
            Err(TransferError::BumpMismatch)
        );
        assert_eq!(
            process_instruction(&program_id(), &mut accounts, &payload, LedgerReply::Created),
            Err(TransferError::BumpMismatch)
        );
        assert_eq!(accounts, before);
        assert_eq!(
            try_process_instruction(&program_id(), &mut accounts, &payload, LedgerReply::Created),
            Some(Err(TransferError::BumpMismatch))
        );
        assert_eq!(accounts, before);
    }
    assert!(tried >= 1);
}

#[test]
fn another_bump_is_refused_whatever_the_amount() {
    let (_, bump) = derived();
    for amount in [0u64, 1, 1_000_000_000, 2_000_000_000, u64::MAX] {
        let mut accounts = fresh_accounts(1_000_000_000);
        let before = accounts.clone();
        assert_eq!(
            process_instruction(&program_id(), &mut accounts, &encode(bump - 1, amount), LedgerReply::Created),
            Err(TransferError::BumpMismatch)
        );
        assert_eq!(accounts, before);
        assert_eq!(
            creation_request(&program_id(), &accounts, &encode(bump - 1, amount)),
            Err(TransferError::BumpMismatch)
        );
    }
}

#[test]
fn a_successful_transfer_went_into_the_derived_vault() {
    let (vault, bump) = derived();
    let mut accounts = fresh_accounts(1_000_000_000);
    assert_eq!(
        process_instruction(&program_id(), &mut accounts, &encode(bump, 1), LedgerReply::Created),
        Ok(())
    );
    assert_eq!(accounts[0].address, vault);
    assert!(!accounts[0].address.is_on_curve());
    assert_eq!(Some(vault), candidate(&source_id(), bump));
    for higher in (bump as u16 + 1)..=255 {
        assert_eq!(candidate(&source_id(), higher as u8), None);
    }
}

#[test]
fn an_account_without_data_lacks_storage() {
    let mut account = Account::new(Identity::new([1u8; 32]), 3, system_ledger());
    assert_eq!(account.balance, 3);
    assert!(account.data.is_empty());
    assert!(account.lacks_storage());
    account.data.push(0);
    assert!(!account.lacks_storage());
}
