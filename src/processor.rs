use vstd::prelude::*;

use crate::account::Account;
use crate::address::{vault_derivation, vault_tag};
use crate::deposit::{deposit_check, Deposit};
use crate::error::VaultError;
use crate::instruction::{decode_instruction, decode_spec, VaultInstruction};
use crate::transfer::{transfer_effect, Transfer};
use crate::withdraw::{withdraw_check, Withdraw};

verus! {

/// The transfer an instruction asks for, as (paying slot, receiving slot,
/// amount), or why it is refused before any balance is touched.
pub open spec fn planned_transfer(accounts: Seq<Account>, data: Seq<u8>) -> Result<(int, int, u64), VaultError> {
    match decode_spec(data) {
        Err(e) => Err(e),
        Ok(VaultInstruction::Deposit { amount }) => match deposit_check(accounts) {
            Err(e) => Err(e),
            Ok(_) => Ok((0, 1, amount)),
        },
        Ok(VaultInstruction::Withdraw) => match withdraw_check(accounts) {
            Err(e) => Err(e),
            Ok(_) => Ok((1, 0, accounts[1].lamports)),
        },
    }
}

/// The accounts after an instruction runs to completion, or why it fails.
pub open spec fn instruction_outcome(accounts: Seq<Account>, data: Seq<u8>) -> Result<Seq<Account>, VaultError> {
    match planned_transfer(accounts, data) {
        Err(e) => Err(e),
        Ok((from, to, amount)) => transfer_effect(accounts, from, to, amount),
    }
}

/// Validates an instruction against its accounts and returns the transfer it
/// asks of the system program. A withdrawal carries the seeds that re-derive
/// the vault's address; a deposit carries none.
pub fn plan_instruction(accounts: &[Account], data: &[u8]) -> (r: Result<Transfer, VaultError>)
    ensures
        match r {
            Ok(t) => {
                &&& planned_transfer(accounts@, data@) == Ok::<(int, int, u64), VaultError>(
                    (t.from as int, t.to as int, t.lamports),
                )
                &&& accounts@.len() == 3
                &&& (t.signer is None <==> decode_spec(data@) is Ok && decode_spec(data@)->Ok_0 is Deposit)
                &&& t.signer matches Some(s) ==> s.tag@ == vault_tag() && s.owner == accounts@[0].address
                    && vault_derivation(s.owner@) == Some((accounts@[1].address@, s.bump@[0]))
            },
            Err(e) => planned_transfer(accounts@, data@) == Err::<(int, int, u64), VaultError>(e),
        },
{
    match decode_instruction(data)? {
        VaultInstruction::Deposit { amount } => {
            let deposit = Deposit::try_from(accounts, amount)?;
            Ok(deposit.process())
        },
        VaultInstruction::Withdraw => {
            let withdraw = Withdraw::try_from(accounts)?;
            Ok(withdraw.process())
        },
    }
}

/// Runs an instruction on a list of accounts: validates it, then moves the
/// balance it asks for. On failure no balance changes.
pub fn process_instruction(accounts: &mut Vec<Account>, data: &[u8]) -> (r: Result<(), VaultError>)
    ensures
        match r {
            Ok(()) => instruction_outcome(old(accounts)@, data@) == Ok::<Seq<Account>, VaultError>(final(accounts)@),
            Err(e) => {
                &&& instruction_outcome(old(accounts)@, data@) == Err::<Seq<Account>, VaultError>(e)
                &&& final(accounts)@ == old(accounts)@
            },
        },
{
    let transfer = plan_instruction(accounts.as_slice(), data)?;
    transfer.apply(accounts)
}

/// A deposit of `amount` into a well-formed vault moves exactly `amount`: the
/// vault holds `amount` more and the owner `amount` less, and nothing else
/// changes. It succeeds whenever the owner can pay and the vault's balance
/// does not overflow.
pub proof fn lemma_deposit_moves_amount(accounts: Seq<Account>, data: Seq<u8>, amount: u64)
    requires
        decode_spec(data) == Ok::<VaultInstruction, VaultError>(VaultInstruction::Deposit { amount }),
        deposit_check(accounts) is Ok,
    ensures
        (amount <= accounts[0].lamports && accounts[1].lamports + amount <= u64::MAX)
            <==> instruction_outcome(accounts, data) is Ok,
        instruction_outcome(accounts, data) matches Ok(after) ==> {
            &&& after.len() == 3
            &&& after[1].lamports == accounts[1].lamports + amount
            &&& after[0].lamports == accounts[0].lamports - amount
            &&& after[0] == accounts[0].with_lamports(after[0].lamports)
            &&& after[1] == accounts[1].with_lamports(after[1].lamports)
            &&& after[2] == accounts[2]
        },
{
}

/// A withdrawal from a vault holding `B` pays exactly `B` to the owner and
/// leaves the vault empty, and a second withdrawal right after it is refused
/// for want of funds in the vault.
pub proof fn lemma_withdraw_drains_vault(accounts: Seq<Account>, data: Seq<u8>)
    requires
        decode_spec(data) == Ok::<VaultInstruction, VaultError>(VaultInstruction::Withdraw),
        withdraw_check(accounts) is Ok,
        accounts[0].lamports + accounts[1].lamports <= u64::MAX,
    ensures
        instruction_outcome(accounts, data) matches Ok(after) && {
            &&& after.len() == 3
            &&& after[0].lamports == accounts[0].lamports + accounts[1].lamports
            &&& after[1].lamports == 0
            &&& after[0] == accounts[0].with_lamports(after[0].lamports)
            &&& after[1] == accounts[1].with_lamports(0)
            &&& after[2] == accounts[2]
            &&& instruction_outcome(after, data) == Err::<Seq<Account>, VaultError>(
                VaultError::InvalidAccountData,
            )
        },
{
    let after = instruction_outcome(accounts, data)->Ok_0;
    assert(after[1].lamports == 0);
}

/// A withdrawal that names, for a signing owner, a funded vault other than
/// the owner's own is refused as a wrong owner; a refused instruction changes
/// no balance.
pub proof fn lemma_foreign_vault_refused(accounts: Seq<Account>, data: Seq<u8>)
    requires
        decode_spec(data) == Ok::<VaultInstruction, VaultError>(VaultInstruction::Withdraw),
        accounts.len() == 3,
        accounts[1].lamports > 0,
        vault_derivation(accounts[0].address@) matches Some((own, _)) && own != accounts[1].address@,
    ensures
        instruction_outcome(accounts, data) == Err::<Seq<Account>, VaultError>(VaultError::InvalidAccountOwner),
{
}

/// Every instruction handed fewer than three accounts is refused for want of
/// account keys.
pub proof fn lemma_short_account_list_refused(accounts: Seq<Account>, data: Seq<u8>)
    requires
        decode_spec(data) is Ok,
        accounts.len() < 3,
    ensures
        instruction_outcome(accounts, data) == Err::<Seq<Account>, VaultError>(VaultError::NotEnoughAccountKeys),
{
}

} // verus!
