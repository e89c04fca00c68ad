//! The bytes of an instruction: one opcode, then what the operation reads.
//!
//! Byte 0 selects the operation. A deposit carries its amount in bytes 1 to
//! 8, least significant byte first; whatever follows is ignored.

use vstd::prelude::*;
use crate::error::VaultError;

verus! {

/// The operations of the vault program.
#[derive(Clone, Copy, Debug, PartialEq, Eq, Structural)]
pub enum Opcode {
    /// Open the vault of an owner.
    CreateVault,
    /// Move an amount from a depositor into a vault.
    Deposit,
    /// Release a tenth of a vault to a recipient.
    Withdraw,
}

/// Length of a deposit's payload: the opcode and eight bytes of amount.
pub const DEPOSIT_PAYLOAD_LEN: usize = 9;

/// The operation that a payload selects, if it selects one.
pub open spec fn opcode_of(data: Seq<u8>) -> Option<Opcode> {
    if data.len() == 0 {
        None
    } else if data[0] == 0 {
        Some(Opcode::CreateVault)
    } else if data[0] == 1 {
        Some(Opcode::Deposit)
    } else if data[0] == 2 {
        Some(Opcode::Withdraw)
    } else {
        None
    }
}

/// Reads the opcode of a payload.
pub fn decode_opcode(data: &[u8]) -> (r: Result<Opcode, VaultError>)
    ensures
        match opcode_of(data@) {
            Some(opcode) => r == Ok::<Opcode, VaultError>(opcode),
            None => r == Err::<Opcode, VaultError>(VaultError::InvalidInstructionData),
        },
{
    if data.len() == 0 {
        return Err(VaultError::InvalidInstructionData);
    }
    let first: u8 = data[0];
    if first == 0 {
        Ok(Opcode::CreateVault)
    } else if first == 1 {
        Ok(Opcode::Deposit)
    } else if first == 2 {
        Ok(Opcode::Withdraw)
    } else {
        Err(VaultError::InvalidInstructionData)
    }
}

/// The number that a sequence of bytes denotes, least significant byte first.
pub open spec fn le_value(bytes: Seq<u8>) -> nat
    decreases bytes.len(),
{
    if bytes.len() == 0 {
        0
    } else {
        bytes[0] as nat + 256 * le_value(bytes.skip(1))
    }
}

/// The amount that a deposit's payload carries, if the payload is long enough.
pub open spec fn amount_of(data: Seq<u8>) -> Option<u64> {
    if data.len() < DEPOSIT_PAYLOAD_LEN {
        None
    } else {
        Some(le_value(data.subrange(1, DEPOSIT_PAYLOAD_LEN as int)) as u64)
    }
}

/// 256 to the power `n`.
pub open spec fn pow256(n: nat) -> nat
    decreases n,
{
    if n == 0 {
        1
    } else {
        256 * pow256((n - 1) as nat)
    }
}

/// A sequence of `n` bytes denotes a number below 256 to the power `n`.
pub proof fn le_value_bound(bytes: Seq<u8>)
    ensures
        le_value(bytes) < pow256(bytes.len()),
    decreases bytes.len(),
{
    if bytes.len() > 0 {
        le_value_bound(bytes.skip(1));
    }
}

/// Eight bytes denote a number that fits in 64 bits.
pub proof fn le_value_fits_u64(bytes: Seq<u8>)
    requires
        bytes.len() == 8,
    ensures
        le_value(bytes) <= u64::MAX,
{
    le_value_bound(bytes);
    reveal_with_fuel(pow256, 9);
}

/// Reads the amount of a deposit from its payload.
pub fn decode_amount(data: &[u8]) -> (r: Option<u64>)
    ensures
        r == amount_of(data@),
{
    if data.len() < DEPOSIT_PAYLOAD_LEN {
        return None;
    }
    let ghost field = data@.subrange(1, 9);
    let mut amount: u64 = 0;
    let mut i: usize = 8;
    while i > 0
        invariant
            i <= 8,
            data@.len() >= 9,
            field == data@.subrange(1, 9),
            amount == le_value(field.subrange(i as int, 8)),
        decreases i,
    {
        let byte: u8 = data[i];
        proof {
            let rest = field.subrange(i as int, 8);
            let more = field.subrange(i - 1, 8);
            assert(more.skip(1) =~= rest);
            assert(more[0] == byte);
            le_value_bound(more);
            reveal_with_fuel(pow256, 9);
        }
        amount = amount * 256 + byte as u64;
        i -= 1;
    }
    assert(field.subrange(0, 8) =~= field);
    Some(amount)
}

} // verus!
