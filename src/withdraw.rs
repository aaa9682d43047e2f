use vstd::prelude::*;

use crate::account::Account;
use crate::address::{
    addresses_equal, derivation_view, find_vault_address, system_program_address,
    system_program_bytes, vault_derivation, vault_tag,
};
use crate::error::VaultError;
use crate::transfer::{SignerSeeds, Transfer};

verus! {

/// The outcome of validating the accounts of a withdrawal, where `derived` is
/// the derivation of the owner's vault: the vault's bump byte, or the first
/// check that fails, in the order the checks are made.
pub open spec fn withdraw_check_given(accounts: Seq<Account>, derived: Option<(Seq<u8>, u8)>) -> Result<u8, VaultError> {
    if accounts.len() != 3 {
        Err(VaultError::NotEnoughAccountKeys)
    } else if !accounts[0].is_signer {
        Err(VaultError::InvalidAccountOwner)
    } else if accounts[1].owner@ != system_program_bytes() {
        Err(VaultError::InvalidAccountOwner)
    } else if accounts[1].lamports == 0 {
        Err(VaultError::InvalidAccountData)
    } else {
        match derived {
            None => Err(VaultError::InvalidSeeds),
            Some((vault, bump)) => if accounts[1].address@ != vault {
                Err(VaultError::InvalidAccountOwner)
            } else {
                Ok(bump)
            },
        }
    }
}

/// The outcome of validating the accounts against the owner's canonical vault.
pub open spec fn withdraw_check(accounts: Seq<Account>) -> Result<u8, VaultError> {
    withdraw_check_given(accounts, vault_derivation(accounts[0].address@))
}

/// The accounts of a withdrawal, bound to their roles, with the bump byte of
/// the vault's derivation.
pub struct WithdrawAccounts {
    pub owner: Account,
    pub vault: Account,
    pub bumps: [u8; 1],
}

impl WithdrawAccounts {
    /// The owner signed, the vault is a funded system account, and it is the
    /// owner's canonical vault with bump `bumps[0]`.
    pub open spec fn wf(&self) -> bool {
        &&& self.owner.is_signer
        &&& self.vault.owner@ == system_program_bytes()
        &&& self.vault.lamports > 0
        &&& vault_derivation(self.owner.address@) == Some((self.vault.address@, self.bumps@[0]))
    }

    /// Binds `[owner, vault, system program]` to their roles, where `derived`
    /// is the derivation of the owner's vault, or says which check failed.
    pub fn from_derivation(accounts: &[Account], derived: Option<([u8; 32], u8)>) -> (r: Result<WithdrawAccounts, VaultError>)
        ensures
            match r {
                Ok(w) => {
                    &&& withdraw_check_given(accounts@, derivation_view(derived)) == Ok::<u8, VaultError>(w.bumps@[0])
                    &&& w.owner == accounts@[0]
                    &&& w.vault == accounts@[1]
                    &&& derived == Some((w.vault.address, w.bumps[0]))
                },
                Err(e) => withdraw_check_given(accounts@, derivation_view(derived)) == Err::<u8, VaultError>(e),
            },
    {
        if accounts.len() != 3 {
            return Err(VaultError::NotEnoughAccountKeys);
        }
        let owner = accounts[0];
        let vault = accounts[1];
        if !owner.is_signer {
            return Err(VaultError::InvalidAccountOwner);
        }
        let system = system_program_address();
        if !addresses_equal(&vault.owner, &system) {
            return Err(VaultError::InvalidAccountOwner);
        }
        if vault.lamports == 0 {
            return Err(VaultError::InvalidAccountData);
        }
        match derived {
            None => Err(VaultError::InvalidSeeds),
            Some((vault_key, bump)) => {
                if !addresses_equal(&vault.address, &vault_key) {
                    return Err(VaultError::InvalidAccountOwner);
                }
                Ok(WithdrawAccounts { owner, vault, bumps: [bump] })
            },
        }
    }

    /// Binds `[owner, vault, system program]` to their roles, checking the
    /// vault against the owner's canonical vault, or says which check failed.
    pub fn try_from(accounts: &[Account]) -> (r: Result<WithdrawAccounts, VaultError>)
        ensures
            match r {
                Ok(w) => {
                    &&& withdraw_check(accounts@) == Ok::<u8, VaultError>(w.bumps@[0])
                    &&& w.owner == accounts@[0]
                    &&& w.vault == accounts@[1]
                    &&& w.wf()
                },
                Err(e) => withdraw_check(accounts@) == Err::<u8, VaultError>(e),
            },
    {
        if accounts.len() != 3 {
            return Err(VaultError::NotEnoughAccountKeys);
        }
        let derived = find_vault_address(&accounts[0].address);
        WithdrawAccounts::from_derivation(accounts, derived)
    }
}

/// A validated withdrawal.
pub struct Withdraw {
    pub accounts: WithdrawAccounts,
}

impl Withdraw {
    /// The byte that leads the payload of a withdrawal.
    pub const DISCRIMINATOR: u8 = 1;

    /// Validates the accounts of a withdrawal.
    pub fn try_from(accounts: &[Account]) -> (r: Result<Withdraw, VaultError>)
        ensures
            match r {
                Ok(w) => {
                    &&& withdraw_check(accounts@) == Ok::<u8, VaultError>(w.accounts.bumps@[0])
                    &&& w.accounts.owner == accounts@[0]
                    &&& w.accounts.vault == accounts@[1]
                    &&& w.accounts.wf()
                },
                Err(e) => withdraw_check(accounts@) == Err::<u8, VaultError>(e),
            },
    {
        let accounts = WithdrawAccounts::try_from(accounts)?;
        Ok(Withdraw { accounts })
    }

    /// The transfer that empties the vault into the owner: the whole balance
    /// from slot 1 to slot 0, authorised by the seeds the vault was derived
    /// from, which re-derive the vault's address.
    pub fn process(&self) -> (t: Transfer)
        requires
            self.accounts.wf(),
        ensures
            t.from == 1,
            t.to == 0,
            t.lamports == self.accounts.vault.lamports,
            t.signer matches Some(s) && s.tag@ == vault_tag() && s.owner == self.accounts.owner.address
                && s.bump == self.accounts.bumps,
            t.signer matches Some(s) && vault_derivation(s.owner@) == Some((self.accounts.vault.address@, s.bump@[0])),
    {
        let seeds = SignerSeeds::vault(&self.accounts.owner.address, self.accounts.bumps);
        Transfer { from: 1, to: 0, lamports: self.accounts.vault.lamports, signer: Some(seeds) }
    }
}

} // verus!
