use vstd::prelude::*;

verus! {

/// What an instruction reads of one account it was handed: its address, the
/// program that owns it, whether it signed the transaction, and its balance.
#[derive(Clone, Copy, Debug)]
pub struct Account {
    pub address: [u8; 32],
    pub owner: [u8; 32],
    pub is_signer: bool,
    pub lamports: u64,
}

impl Account {
    /// An account with the given fields.
    pub fn new(address: [u8; 32], owner: [u8; 32], is_signer: bool, lamports: u64) -> (r: Account)
        ensures
            r.address == address,
            r.owner == owner,
            r.is_signer == is_signer,
            r.lamports == lamports,
    {
        Account { address, owner, is_signer, lamports }
    }

    /// The same account holding `lamports`.
    pub open spec fn with_lamports(self, lamports: u64) -> Account {
        Account { lamports, ..self }
    }
}

} // verus!
