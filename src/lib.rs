//! A custodial vault program: an owner deposits value into an address derived
//! from their own, which only they can empty again, and later withdraws the
//! whole balance back to themselves.
//!
//! The library validates each instruction against the accounts it is handed,
//! decides the transfer that the system program is asked to make, and models
//! that transfer's effect on balances.

pub mod account;
pub mod address;
pub mod deposit;
pub mod error;
pub mod instruction;
pub mod processor;
pub mod transfer;
pub mod withdraw;
