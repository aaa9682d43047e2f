use blueshift_vault::account::Account;
use blueshift_vault::address::{addresses_equal, find_vault_address, system_program_address, PROGRAM_ID};
use blueshift_vault::deposit::{Deposit, DepositAccounts};
use blueshift_vault::error::VaultError;
use blueshift_vault::instruction::{decode_instruction, read_u64_le, VaultInstruction};
use blueshift_vault::processor::{plan_instruction, process_instruction};
use blueshift_vault::transfer::Transfer;
use blueshift_vault::withdraw::{Withdraw, WithdrawAccounts};

const OWNER_A: [u8; 32] = [7; 32];
const OWNER_B: [u8; 32] = [9; 32];
const VAULT_A: [u8; 32] = [
    159, 231, 138, 70, 154, 192, 232, 164, 58, 133, 61, 58, 36, 224, 83, 70, 234, 178, 112, 10,
    87, 210, 72, 249, 201, 193, 87, 213, 18, 22, 253, 155,
];
const VAULT_B: [u8; 32] = [
    86, 85, 90, 49, 194, 143, 184, 131, 13, 112, 242, 55, 48, 227, 97, 177, 129, 86, 65, 44, 200,
    222, 122, 211, 17, 60, 152, 182, 21, 140, 94, 115,
];

fn system() -> [u8; 32] {
    system_program_address()
}

fn accounts_for(owner: [u8; 32], vault: [u8; 32], owner_lamports: u64, vault_lamports: u64) -> Vec<Account> {
    vec![
        Account::new(owner, system(), true, owner_lamports),
        Account::new(vault, system(), false, vault_lamports),
        Account::new(system(), [3; 32], false, 1),
    ]
}

fn deposit_data(amount: u64) -> Vec<u8> {
    let mut data = vec![0u8];
    data.extend_from_slice(&amount.to_le_bytes());
    data
}

fn lamports(accounts: &[Account]) -> Vec<u64> {
    accounts.iter().map(|a| a.lamports).collect()
}

#[test]
fn system_program_is_all_zero_bytes() {
    assert_eq!(system_program_address(), [0u8; 32]);
}

#[test]
fn vault_address_matches_known_derivation() {
    assert_eq!(find_vault_address(&OWNER_A), Some((VAULT_A, 255)));
    assert_eq!(find_vault_address(&OWNER_B), Some((VAULT_B, 253)));
}

#[test]
fn vault_derivation_is_deterministic() {
    let first = find_vault_address(&OWNER_A);
    let second = find_vault_address(&OWNER_A);
    assert_eq!(first, second);
    assert!(first.is_some());
}

#[test]
fn different_owners_get_different_vaults() {
    let a = find_vault_address(&OWNER_A).unwrap().0;
    let b = find_vault_address(&OWNER_B).unwrap().0;
    assert_ne!(a, b);
    assert_ne!(a, OWNER_A);
    assert!(!addresses_equal(&a, &b));
    assert!(addresses_equal(&a, &VAULT_A));
}

#[test]
fn program_id_is_fixed() {
    assert_eq!(PROGRAM_ID[0], 133);
    assert_eq!(PROGRAM_ID[31], 63);
}

#[test]
fn read_u64_le_reads_little_endian() {
    let data = [0xff, 0x01, 0x02, 0x03, 0x04, 0x05, 0x06, 0x07, 0x08];
    assert_eq!(read_u64_le(&data, 1), 0x0807_0605_0403_0201);
    assert_eq!(read_u64_le(&[0xff; 8], 0), u64::MAX);
}

#[test]
fn decode_deposit_and_withdraw() {
    assert_eq!(
        decode_instruction(&deposit_data(500_000_000)),
        Ok(VaultInstruction::Deposit { amount: 500_000_000 })
    );
    assert_eq!(decode_instruction(&[1]), Ok(VaultInstruction::Withdraw));
    assert_eq!(decode_instruction(&[1, 42]), Ok(VaultInstruction::Withdraw));
}

#[test]
fn decode_refuses_malformed_payloads() {
    assert_eq!(decode_instruction(&[]), Err(VaultError::InvalidInstructionData));
    assert_eq!(decode_instruction(&[2]), Err(VaultError::InvalidInstructionData));
    assert_eq!(decode_instruction(&[0, 1, 2, 3]), Err(VaultError::InvalidInstructionData));
    let mut long = deposit_data(5);
    long.push(0);
    assert_eq!(decode_instruction(&long), Err(VaultError::InvalidInstructionData));
}

#[test]
fn withdraw_accounts_bind_roles_and_bump() {
    let accounts = accounts_for(OWNER_B, VAULT_B, 10, 20);
    let w = WithdrawAccounts::try_from(&accounts).unwrap();
    assert_eq!(w.owner.address, OWNER_B);
    assert_eq!(w.vault.address, VAULT_B);
    assert_eq!(w.bumps, [253]);
}

#[test]
fn withdraw_process_plans_full_balance_with_seeds() {
    let accounts = accounts_for(OWNER_A, VAULT_A, 10, 1234);
    let w = Withdraw::try_from(&accounts).unwrap();
    let t = w.process();
    assert_eq!((t.from, t.to, t.lamports), (1, 0, 1234));
    let seeds = t.signer.unwrap();
    assert_eq!(&seeds.tag, b"vault");
    assert_eq!(seeds.owner, OWNER_A);
    assert_eq!(seeds.bump, [255]);
}

#[test]
fn deposit_process_plans_owner_to_vault() {
    let accounts = accounts_for(OWNER_A, VAULT_A, 10, 0);
    let d = Deposit::try_from(&accounts, 7).unwrap();
    let t = d.process();
    assert_eq!((t.from, t.to, t.lamports), (0, 1, 7));
    assert!(t.signer.is_none());
    assert!(DepositAccounts::try_from(&accounts).is_ok());
}

#[test]
fn withdraw_refuses_unsigned_owner() {
    let mut accounts = accounts_for(OWNER_A, VAULT_A, 10, 20);
    accounts[0].is_signer = false;
    assert!(matches!(Withdraw::try_from(&accounts), Err(VaultError::InvalidAccountOwner)));
}

#[test]
fn withdraw_refuses_vault_not_owned_by_system() {
    let mut accounts = accounts_for(OWNER_A, VAULT_A, 10, 20);
    accounts[1].owner = PROGRAM_ID;
    assert!(matches!(Withdraw::try_from(&accounts), Err(VaultError::InvalidAccountOwner)));
    assert!(matches!(Deposit::try_from(&accounts, 1), Err(VaultError::InvalidAccountOwner)));
}

#[test]
fn withdraw_refuses_empty_vault() {
    let accounts = accounts_for(OWNER_A, VAULT_A, 10, 0);
    assert!(matches!(Withdraw::try_from(&accounts), Err(VaultError::InvalidAccountData)));
}

#[test]
fn refuses_wrong_account_count() {
    let accounts = accounts_for(OWNER_A, VAULT_A, 10, 20);
    assert!(matches!(Withdraw::try_from(&accounts[..2]), Err(VaultError::NotEnoughAccountKeys)));
    assert!(matches!(Deposit::try_from(&accounts[..1], 1), Err(VaultError::NotEnoughAccountKeys)));
    let mut more = accounts.clone();
    more.push(accounts[2]);
    assert!(matches!(Withdraw::try_from(&more), Err(VaultError::NotEnoughAccountKeys)));
}

#[test]
fn fewer_accounts_fail_before_balances_change() {
    for data in [deposit_data(5), vec![1]] {
        let mut accounts = accounts_for(OWNER_A, VAULT_A, 10, 20);
        accounts.pop();
        assert_eq!(process_instruction(&mut accounts, &data), Err(VaultError::NotEnoughAccountKeys));
        assert_eq!(lamports(&accounts), vec![10, 20]);
    }
}

#[test]
fn deposit_moves_exact_amount() {
    let mut accounts = accounts_for(OWNER_A, VAULT_A, 1_000, 300);
    assert_eq!(process_instruction(&mut accounts, &deposit_data(250)), Ok(()));
    assert_eq!(lamports(&accounts), vec![750, 550, 1]);
}

#[test]
fn deposit_refuses_insufficient_funds() {
    let mut accounts = accounts_for(OWNER_A, VAULT_A, 100, 0);
    assert_eq!(process_instruction(&mut accounts, &deposit_data(101)), Err(VaultError::InsufficientFunds));
    assert_eq!(lamports(&accounts), vec![100, 0, 1]);
}

#[test]
fn transfer_refuses_overflow() {
    let mut accounts = accounts_for(OWNER_A, VAULT_A, u64::MAX, 5);
    let t = Transfer { from: 1, to: 0, lamports: 5, signer: None };
    assert_eq!(t.apply(&mut accounts), Err(VaultError::ArithmeticOverflow));
    assert_eq!(lamports(&accounts), vec![u64::MAX, 5, 1]);
}

#[test]
fn withdraw_drains_vault_and_second_withdraw_fails() {
    let mut accounts = accounts_for(OWNER_B, VAULT_B, 40, 60);
    assert_eq!(process_instruction(&mut accounts, &[1]), Ok(()));
    assert_eq!(lamports(&accounts), vec![100, 0, 1]);
    assert_eq!(process_instruction(&mut accounts, &[1]), Err(VaultError::InvalidAccountData));
    assert_eq!(lamports(&accounts), vec![100, 0, 1]);
}

#[test]
fn withdraw_of_foreign_vault_is_refused() {
    let mut accounts = accounts_for(OWNER_A, VAULT_B, 40, 60);
    assert_eq!(process_instruction(&mut accounts, &[1]), Err(VaultError::InvalidAccountOwner));
    assert_eq!(lamports(&accounts), vec![40, 60, 1]);
    let mut deposit = accounts_for(OWNER_A, VAULT_B, 40, 60);
    assert_eq!(process_instruction(&mut deposit, &deposit_data(10)), Err(VaultError::InvalidAccountOwner));
    assert_eq!(lamports(&deposit), vec![40, 60, 1]);
}

#[test]
fn plan_instruction_matches_handlers() {
    let accounts = accounts_for(OWNER_A, VAULT_A, 10, 20);
    let t = plan_instruction(&accounts, &[1]).unwrap();
    assert_eq!((t.from, t.to, t.lamports), (1, 0, 20));
    assert!(t.signer.is_some());
    let t = plan_instruction(&accounts, &deposit_data(3)).unwrap();
    assert_eq!((t.from, t.to, t.lamports), (0, 1, 3));
    assert!(matches!(plan_instruction(&accounts, &[9]), Err(VaultError::InvalidInstructionData)));
}

#[test]
fn deposit_then_withdraw_round_trip() {
    let mut accounts = accounts_for(OWNER_A, VAULT_A, 2_000_000_000, 0);
    assert_eq!(process_instruction(&mut accounts, &deposit_data(500_000_000)), Ok(()));
    assert_eq!(accounts[0].lamports, 1_500_000_000);
    assert_eq!(accounts[1].lamports, 500_000_000);
    assert_eq!(process_instruction(&mut accounts, &[1]), Ok(()));
    assert_eq!(accounts[0].lamports, 2_000_000_000);
    assert_eq!(accounts[1].lamports, 0);
}

#[test]
fn from_derivation_checks_against_given_vault() {
    let accounts = accounts_for([1; 32], [2; 32], 5, 7);
    let w = WithdrawAccounts::from_derivation(&accounts, Some(([2; 32], 9))).unwrap();
    assert_eq!(w.bumps, [9]);
    assert!(matches!(
        WithdrawAccounts::from_derivation(&accounts, Some(([1; 32], 9))),
        Err(VaultError::InvalidAccountOwner)
    ));
    assert!(matches!(
        WithdrawAccounts::from_derivation(&accounts, None),
        Err(VaultError::InvalidSeeds)
    ));
    let d = DepositAccounts::from_derivation(&accounts, Some(([2; 32], 9))).unwrap();
    assert_eq!(d.vault.address, [2; 32]);
    assert!(matches!(
        DepositAccounts::from_derivation(&accounts, Some(([3; 32], 9))),
        Err(VaultError::InvalidAccountOwner)
    ));
    assert!(matches!(
        DepositAccounts::from_derivation(&accounts, None),
        Err(VaultError::InvalidSeeds)
    ));
}

#[test]
fn from_derivation_keeps_check_order() {
    let mut accounts = accounts_for([1; 32], [2; 32], 5, 0);
    assert!(matches!(
        WithdrawAccounts::from_derivation(&accounts, None),
        Err(VaultError::InvalidAccountData)
    ));
    assert!(DepositAccounts::from_derivation(&accounts, Some(([2; 32], 1))).is_ok());
    accounts[0].is_signer = false;
    assert!(matches!(
        WithdrawAccounts::from_derivation(&accounts, None),
        Err(VaultError::InvalidAccountOwner)
    ));
    assert!(matches!(
        DepositAccounts::from_derivation(&accounts[..2], None),
        Err(VaultError::NotEnoughAccountKeys)
    ));
}
