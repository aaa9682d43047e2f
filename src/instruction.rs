use vstd::prelude::*;

use crate::deposit::Deposit;
use crate::error::VaultError;
use crate::withdraw::Withdraw;

verus! {

/// An instruction of the vault program, as its payload names it.
#[derive(Clone, Copy, Debug, PartialEq, Eq, Structural)]
pub enum VaultInstruction {
    Deposit { amount: u64 },
    Withdraw,
}

/// The unsigned integer that eight bytes encode, least significant first.
pub open spec fn le_u64(b: Seq<u8>) -> int {
    b[0] + b[1] * 0x100 + b[2] * 0x1_0000 + b[3] * 0x100_0000 + b[4] * 0x1_0000_0000
        + b[5] * 0x100_0000_0000 + b[6] * 0x1_0000_0000_0000 + b[7] * 0x100_0000_0000_0000
}

/// The instruction a payload names: a leading discriminator byte, followed for
/// a deposit by exactly eight bytes of little-endian amount; what follows the
/// discriminator of a withdrawal is not read.
pub open spec fn decode_spec(data: Seq<u8>) -> Result<VaultInstruction, VaultError> {
    if data.len() == 0 {
        Err(VaultError::InvalidInstructionData)
    } else if data[0] == 0 {
        if data.len() == 9 {
            Ok(VaultInstruction::Deposit { amount: le_u64(data.subrange(1, 9)) as u64 })
        } else {
            Err(VaultError::InvalidInstructionData)
        }
    } else if data[0] == 1 {
        Ok(VaultInstruction::Withdraw)
    } else {
        Err(VaultError::InvalidInstructionData)
    }
}

/// Reads the eight bytes at `start` as a little-endian unsigned integer.
pub fn read_u64_le(data: &[u8], start: usize) -> (r: u64)
    requires
        start + 8 <= data@.len(),
    ensures
        r as int == le_u64(data@.subrange(start as int, start + 8)),
{
    let s = Ghost(data@.subrange(start as int, start + 8));
    assert(s@[0] == data@[start as int] && s@[1] == data@[start + 1] && s@[2] == data@[start + 2]
        && s@[3] == data@[start + 3] && s@[4] == data@[start + 4] && s@[5] == data@[start + 5]
        && s@[6] == data@[start + 6] && s@[7] == data@[start + 7]);
    data[start] as u64 + data[start + 1] as u64 * 0x100 + data[start + 2] as u64 * 0x1_0000
        + data[start + 3] as u64 * 0x100_0000 + data[start + 4] as u64 * 0x1_0000_0000
        + data[start + 5] as u64 * 0x100_0000_0000 + data[start + 6] as u64 * 0x1_0000_0000_0000
        + data[start + 7] as u64 * 0x100_0000_0000_0000
}

/// Reads the instruction a payload names.
pub fn decode_instruction(data: &[u8]) -> (r: Result<VaultInstruction, VaultError>)
    ensures
        r == decode_spec(data@),
{
    if data.len() == 0 {
        return Err(VaultError::InvalidInstructionData);
    }
    if data[0] == Deposit::DISCRIMINATOR {
        if data.len() != 9 {
            return Err(VaultError::InvalidInstructionData);
        }
        let amount = read_u64_le(data, 1);
        Ok(VaultInstruction::Deposit { amount })
    } else if data[0] == Withdraw::DISCRIMINATOR {
        Ok(VaultInstruction::Withdraw)
    } else {
        Err(VaultError::InvalidInstructionData)
    }
}

} // verus!
