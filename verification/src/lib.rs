//! A custodial vault held at a program-derived address.
//!
//! The crate decides what one invocation of the vault program does: it reads
//! the opcode, validates the accounts that were handed in, moves deposited
//! funds between balances, and describes the cross-program calls that open a
//! vault or release a tenth of it. Performing those calls is left to the
//! runtime that hosts the program.

pub mod accounts;
pub mod address;
pub mod derivation;
pub mod error;
pub mod payload;
pub mod processor;
pub mod request;
pub mod system;
