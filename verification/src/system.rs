//! What the program asks of the ledger's system program.
//!
//! The system program allocates accounts and moves funds between them. The
//! vault program does neither itself: it builds the instruction that asks for
//! it and leaves the call to the runtime. It also asks how large a balance an
//! account must hold to be exempt from rent.

use vstd::prelude::*;
use solana_program::pubkey::Pubkey;
use solana_program::rent::Rent;
use solana_program::system_instruction;
use crate::address::Address;

verus! {

/// How an instruction uses one account.
#[derive(Clone, Copy, Debug, PartialEq, Eq)]
pub struct AccountMeta {
    /// Address of the account.
    pub pubkey: Address,
    /// Whether the instruction needs the account's signature.
    pub is_signer: bool,
    /// Whether the instruction may change the account.
    pub is_writable: bool,
}

/// An instruction for another program.
#[derive(Clone, Debug, PartialEq, Eq)]
pub struct Instruction {
    /// The program that executes the instruction.
    pub program_id: Address,
    /// The accounts that the instruction uses.
    pub accounts: Vec<AccountMeta>,
    /// The payload, which only the executing program interprets.
    pub data: Vec<u8>,
}

/// An instruction with its sequences taken as mathematical ones.
pub ghost struct InstructionView {
    pub program_id: Seq<u8>,
    pub accounts: Seq<AccountMeta>,
    pub data: Seq<u8>,
}

impl View for Instruction {
    type V = InstructionView;

    open spec fn view(&self) -> InstructionView {
        InstructionView {
            program_id: self.program_id@,
            accounts: self.accounts@,
            data: self.data@,
        }
    }
}

/// Largest size of an account's data, in bytes.
pub const MAX_DATA_LEN: usize = 10 * 1024 * 1024;

/// The smallest balance that exempts an account with `data_len` bytes of
/// data from rent, at the ledger's default rates: two years of rent at 3480
/// base units per byte and year, for the data and 128 bytes of overhead.
pub open spec fn rent_exempt_minimum(data_len: nat) -> nat {
    (128 + data_len) * 3480 * 2
}

/// Calls `solana_program::rent::Rent::minimum_balance` on the rent
/// configuration that `Rent::default` gives.
///
/// Trusted: for data no larger than an account may hold, the result is
/// `rent_exempt_minimum`. The outside function multiplies the size plus its
/// overhead constant by the default rate in integers, and the product by the
/// default threshold of 2.0 in floating point, which is exact at this size.
#[verifier::external_body]
pub(crate) fn minimum_balance(data_len: usize) -> (lamports: u64)
    requires
        data_len <= MAX_DATA_LEN,
    ensures
        lamports == rent_exempt_minimum(data_len as nat),
{
    Rent::default().minimum_balance(data_len)
}

/// The instruction by which the system program allocates the account `to`
/// with `space` bytes of data, funds it with `lamports` from `from` and
/// hands it to the program `owner`.
pub uninterp spec fn create_account_instruction(from: Seq<u8>, to: Seq<u8>, lamports: u64, space: u64, owner: Seq<u8>) -> InstructionView;

/// Calls `solana_program::system_instruction::create_account`.
///
/// Trusted: the result is the instruction that `create_account_instruction`
/// names for the same arguments. The outside function only builds a value.
#[verifier::external_body]
pub(crate) fn system_create_account(from: &Address, to: &Address, lamports: u64, space: u64, owner: &Address) -> (instruction: Instruction)
    ensures
        instruction@ == create_account_instruction(from@, to@, lamports, space, owner@),
{
    let from = Pubkey::new_from_array(from.bytes);
    let to = Pubkey::new_from_array(to.bytes);
    let owner = Pubkey::new_from_array(owner.bytes);
    let built = system_instruction::create_account(&from, &to, lamports, space, &owner);
    Instruction {
        program_id: Address { bytes: built.program_id.to_bytes() },
        accounts: built.accounts.iter().map(|meta| AccountMeta {
            pubkey: Address { bytes: meta.pubkey.to_bytes() },
            is_signer: meta.is_signer,
            is_writable: meta.is_writable,
        }).collect(),
        data: built.data,
    }
}

/// The instruction by which the system program moves `lamports` from the
/// account `from` to the account `to`.
pub uninterp spec fn transfer_instruction(from: Seq<u8>, to: Seq<u8>, lamports: u64) -> InstructionView;

/// Calls `solana_program::system_instruction::transfer`.
///
/// Trusted: the result is the instruction that `transfer_instruction` names
/// for the same arguments. The outside function only builds a value.
#[verifier::external_body]
pub(crate) fn system_transfer(from: &Address, to: &Address, lamports: u64) -> (instruction: Instruction)
    ensures
        instruction@ == transfer_instruction(from@, to@, lamports),
{
    let from = Pubkey::new_from_array(from.bytes);
    let to = Pubkey::new_from_array(to.bytes);
    let built = system_instruction::transfer(&from, &to, lamports);
    Instruction {
        program_id: Address { bytes: built.program_id.to_bytes() },
        accounts: built.accounts.iter().map(|meta| AccountMeta {
            pubkey: Address { bytes: meta.pubkey.to_bytes() },
            is_signer: meta.is_signer,
            is_writable: meta.is_writable,
        }).collect(),
        data: built.data,
    }
}

} // verus!
