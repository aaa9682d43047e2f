use vstd::prelude::*;

use crate::account::Account;
use crate::address::{
    addresses_equal, derivation_view, find_vault_address, system_program_address,
    system_program_bytes, vault_derivation,
};
use crate::error::VaultError;
use crate::transfer::Transfer;

verus! {

/// The outcome of validating the accounts of a deposit, where `derived` is the
/// derivation of the owner's vault: the vault's bump byte, or the first check
/// that fails, in the order the checks are made.
pub open spec fn deposit_check_given(accounts: Seq<Account>, derived: Option<(Seq<u8>, u8)>) -> Result<u8, VaultError> {
    if accounts.len() != 3 {
        Err(VaultError::NotEnoughAccountKeys)
    } else if !accounts[0].is_signer {
        Err(VaultError::InvalidAccountOwner)
    } else if accounts[1].owner@ != system_program_bytes() {
        Err(VaultError::InvalidAccountOwner)
    } else {
        match derived {
            None => Err(VaultError::InvalidSeeds),
            Some((vault, bump)) => if accounts[1].address@ != vault {
                Err(VaultError::InvalidAccountOwner)
            } else {
                Ok(bump)
            },
        }
    }
}

/// The outcome of validating the accounts against the owner's canonical vault.
pub open spec fn deposit_check(accounts: Seq<Account>) -> Result<u8, VaultError> {
    deposit_check_given(accounts, vault_derivation(accounts[0].address@))
}

/// The accounts of a deposit, bound to their roles.
pub struct DepositAccounts {
    pub owner: Account,
    pub vault: Account,
}

impl DepositAccounts {
    /// The owner signed, and the vault is the owner's canonical vault and a
    /// system account.
    pub open spec fn wf(&self) -> bool {
        &&& self.owner.is_signer
        &&& self.vault.owner@ == system_program_bytes()
        &&& vault_derivation(self.owner.address@) matches Some((v, _)) && v == self.vault.address@
    }

    /// Binds `[owner, vault, system program]` to their roles, where `derived`
    /// is the derivation of the owner's vault, or says which check failed.
    pub fn from_derivation(accounts: &[Account], derived: Option<([u8; 32], u8)>) -> (r: Result<DepositAccounts, VaultError>)
        ensures
            match r {
                Ok(d) => {
                    &&& deposit_check_given(accounts@, derivation_view(derived)) is Ok
                    &&& d.owner == accounts@[0]
                    &&& d.vault == accounts@[1]
                    &&& derived matches Some((v, _)) && v == d.vault.address
                },
                Err(e) => deposit_check_given(accounts@, derivation_view(derived)) == Err::<u8, VaultError>(e),
            },
    {
        if accounts.len() != 3 {
            return Err(VaultError::NotEnoughAccountKeys);
        }
        let owner = accounts[0];
        let vault = accounts[1];
        if !owner.is_signer {
            return Err(VaultError::InvalidAccountOwner);
        }
        let system = system_program_address();
        if !addresses_equal(&vault.owner, &system) {
            return Err(VaultError::InvalidAccountOwner);
        }
        match derived {
            None => Err(VaultError::InvalidSeeds),
            Some((vault_key, _bump)) => {
                if !addresses_equal(&vault.address, &vault_key) {
                    return Err(VaultError::InvalidAccountOwner);
                }
                Ok(DepositAccounts { owner, vault })
            },
        }
    }

    /// Binds `[owner, vault, system program]` to their roles, checking the
    /// vault against the owner's canonical vault, or says which check failed.
    pub fn try_from(accounts: &[Account]) -> (r: Result<DepositAccounts, VaultError>)
        ensures
            match r {
                Ok(d) => {
                    &&& deposit_check(accounts@) is Ok
                    &&& d.owner == accounts@[0]
                    &&& d.vault == accounts@[1]
                    &&& d.wf()
                },
                Err(e) => deposit_check(accounts@) == Err::<u8, VaultError>(e),
            },
    {
        if accounts.len() != 3 {
            return Err(VaultError::NotEnoughAccountKeys);
        }
        let derived = find_vault_address(&accounts[0].address);
        DepositAccounts::from_derivation(accounts, derived)
    }
}

/// A validated deposit of `amount` into the owner's vault.
pub struct Deposit {
    pub accounts: DepositAccounts,
    pub amount: u64,
}

impl Deposit {
    /// The byte that leads the payload of a deposit.
    pub const DISCRIMINATOR: u8 = 0;

    /// Validates the accounts of a deposit of `amount`.
    pub fn try_from(accounts: &[Account], amount: u64) -> (r: Result<Deposit, VaultError>)
        ensures
            match r {
                Ok(d) => {
                    &&& deposit_check(accounts@) is Ok
                    &&& d.accounts.owner == accounts@[0]
                    &&& d.accounts.vault == accounts@[1]
                    &&& d.accounts.wf()
                    &&& d.amount == amount
                },
                Err(e) => deposit_check(accounts@) == Err::<u8, VaultError>(e),
            },
    {
        let accounts = DepositAccounts::try_from(accounts)?;
        Ok(Deposit { accounts, amount })
    }

    /// The transfer that pays `amount` from the owner, in slot 0, into the
    /// vault, in slot 1; the owner's own signature authorises it.
    pub fn process(&self) -> (t: Transfer)
        ensures
            t.from == 0,
            t.to == 1,
            t.lamports == self.amount,
            t.signer is None,
    {
        Transfer { from: 0, to: 1, lamports: self.amount, signer: None }
    }
}

} // verus!
