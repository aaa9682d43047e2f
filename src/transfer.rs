use vstd::prelude::*;

use crate::account::Account;
use crate::address::vault_tag;
use crate::error::VaultError;

verus! {

/// The seeds that prove this program's authority over a vault: the domain
/// tag, the owner's address and the bump byte.
#[derive(Clone, Copy, Debug)]
pub struct SignerSeeds {
    pub tag: [u8; 5],
    pub owner: [u8; 32],
    pub bump: [u8; 1],
}

impl SignerSeeds {
    /// The seeds of the vault of `owner` with bump `bump`.
    pub fn vault(owner: &[u8; 32], bump: [u8; 1]) -> (r: SignerSeeds)
        ensures
            r.tag@ == vault_tag(),
            r.owner == *owner,
            r.bump == bump,
    {
        let tag: [u8; 5] = [118, 97, 117, 108, 116];
        assert(tag@ =~= vault_tag());
        SignerSeeds { tag, owner: *owner, bump }
    }
}

/// A request to the system program to move `lamports` from the account in slot
/// `from` to the account in slot `to`, signed by the seeds where the paying
/// account is a vault.
#[derive(Clone, Copy, Debug)]
pub struct Transfer {
    pub from: usize,
    pub to: usize,
    pub lamports: u64,
    pub signer: Option<SignerSeeds>,
}


/// The accounts after moving `amount` from slot `from` to slot `to`, or why the
/// system program refuses the move: the payer holds too little, or the
/// receiver's balance would overflow.
pub open spec fn transfer_effect(accounts: Seq<Account>, from: int, to: int, amount: u64) -> Result<Seq<Account>, VaultError> {
    if accounts[from].lamports < amount {
        Err(VaultError::InsufficientFunds)
    } else if accounts[to].lamports + amount > u64::MAX {
        Err(VaultError::ArithmeticOverflow)
    } else {
        let paid = accounts[from].with_lamports((accounts[from].lamports - amount) as u64);
        let credited = accounts[to].with_lamports((accounts[to].lamports + amount) as u64);
        Ok(accounts.update(from, paid).update(to, credited))
    }
}

impl Transfer {
    /// Moves the balance on a list of accounts as the system program does:
    /// all or nothing. The authority of the signer seeds is not checked here;
    /// the runtime checks it.
    pub fn apply(&self, accounts: &mut Vec<Account>) -> (r: Result<(), VaultError>)
        requires
            self.from < old(accounts)@.len(),
            self.to < old(accounts)@.len(),
            self.from != self.to,
        ensures
            match r {
                Ok(()) => transfer_effect(old(accounts)@, self.from as int, self.to as int, self.lamports)
                    == Ok::<Seq<Account>, VaultError>(final(accounts)@),
                Err(e) => {
                    &&& transfer_effect(old(accounts)@, self.from as int, self.to as int, self.lamports)
                        == Err::<Seq<Account>, VaultError>(e)
                    &&& final(accounts)@ == old(accounts)@
                },
            },
    {
        let payer = accounts[self.from];
        let receiver = accounts[self.to];
        if payer.lamports < self.lamports {
            return Err(VaultError::InsufficientFunds);
        }
        if receiver.lamports > u64::MAX - self.lamports {
            return Err(VaultError::ArithmeticOverflow);
        }
        let paid = Account { lamports: payer.lamports - self.lamports, ..payer };
        let credited = Account { lamports: receiver.lamports + self.lamports, ..receiver };
        accounts.set(self.from, paid);
        accounts.set(self.to, credited);
        Ok(())
    }
}

} // verus!
