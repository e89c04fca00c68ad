//! Why an invocation fails.

use vstd::prelude::*;

verus! {

/// The reasons for which the vault program refuses or aborts an invocation.
///
/// The first four are the codes that the program hands back to its caller.
/// The others are faults: the program has no code for them, and the runtime
/// that hosts it aborts the invocation. Either way nothing that the
/// invocation did to a balance remains.
#[derive(Clone, Copy, Debug, PartialEq, Eq, Structural)]
pub enum VaultError {
    /// The invocation names fewer accounts than the operation reads.
    NotEnoughAccountKeys,
    /// The payload is empty or its opcode is not one of the three known.
    InvalidInstructionData,
    /// The vault account handed in is not the one derived for the owner.
    InvalidArgument,
    /// The vault account of a deposit is not writable.
    InvalidAccountData,
    /// Fault: the payload of a deposit ends before its amount does.
    PayloadTooShort,
    /// Fault: crediting the vault would exceed the largest balance.
    BalanceOverflow,
    /// Fault: the depositor holds less than the amount to debit.
    BalanceUnderflow,
    /// Fault: no bump seed leads to an address off the curve.
    NoDerivedAddress,
}

} // verus!
