use vstd::prelude::*;

verus! {

/// Why an instruction was refused. Every error aborts the instruction with no
/// balance changed.
#[derive(Clone, Copy, Debug, PartialEq, Eq, Structural)]
pub enum VaultError {
    /// The account list does not have the layout the instruction expects.
    NotEnoughAccountKeys,
    /// The owner did not sign, the vault is not a plain system account, or the
    /// vault is not the address derived from the owner.
    InvalidAccountOwner,
    /// The vault holds nothing to withdraw.
    InvalidAccountData,
    /// The payload is empty, names no known instruction, or is malformed.
    InvalidInstructionData,
    /// No program address could be derived from the owner's seeds.
    InvalidSeeds,
    /// The paying account holds less than the amount to move.
    InsufficientFunds,
    /// Crediting the receiving account would overflow its balance.
    ArithmeticOverflow,
}

} // verus!
