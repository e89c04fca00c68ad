//! The calls that the program leaves to the runtime.
//!
//! Opening a vault and releasing funds from it are done by the system
//! program, on the vault program's behalf. A handler decides what to ask for
//! and under which authority; the result is an `Invocation`, which the
//! runtime performs after the handler has returned.

use vstd::prelude::*;
use crate::address::Address;
use crate::derivation::{seeds_view, AuthorizationProof};
use crate::system::{
    create_account_instruction, system_create_account, system_transfer, transfer_instruction,
    Instruction, InstructionView,
};

verus! {

/// A request to allocate an account and fund it.
#[derive(Clone, Copy, Debug, PartialEq, Eq)]
pub struct Allocation {
    /// The account that pays for the new one.
    pub payer: Address,
    /// The address of the new account.
    pub account: Address,
    /// The balance that the new account starts with.
    pub lamports: u64,
    /// The size of the new account's data, in bytes.
    pub space: u64,
    /// The program that owns the new account.
    pub owner: Address,
    /// The authority under which the new account signs.
    pub authorization: AuthorizationProof,
}

/// A request to move funds out of a vault.
#[derive(Clone, Copy, Debug, PartialEq, Eq)]
pub struct Transfer {
    /// The vault that is debited.
    pub from: Address,
    /// The account that is credited.
    pub to: Address,
    /// The amount moved.
    pub lamports: u64,
    /// The authority under which the vault signs.
    pub authorization: AuthorizationProof,
}

/// A call of another program, ready for the runtime to perform.
#[derive(Clone, Debug, PartialEq, Eq)]
pub struct Invocation {
    /// The instruction that the called program executes.
    pub instruction: Instruction,
    /// The accounts handed to the call, by their position in the account
    /// list of the running invocation.
    pub accounts: Vec<usize>,
    /// The seeds that sign for the vault.
    pub signer_seeds: Vec<Vec<u8>>,
}

/// An invocation with its sequences taken as mathematical ones.
pub ghost struct InvocationView {
    pub instruction: InstructionView,
    pub accounts: Seq<usize>,
    pub signer_seeds: Seq<Seq<u8>>,
}

impl View for Invocation {
    type V = InvocationView;

    open spec fn view(&self) -> InvocationView {
        InvocationView {
            instruction: self.instruction@,
            accounts: self.accounts@,
            signer_seeds: seeds_view(self.signer_seeds@),
        }
    }
}

impl Allocation {
    /// The instruction that carries the request to the system program.
    pub open spec fn instruction(self) -> InstructionView {
        create_account_instruction(
            self.payer@,
            self.account@,
            self.lamports,
            self.space,
            self.owner@,
        )
    }

    /// The call that performs the request: the payer, the new account and
    /// the system program are the first three accounts of the list.
    pub open spec fn invocation(self) -> InvocationView {
        InvocationView {
            instruction: self.instruction(),
            accounts: seq![0usize, 1usize, 2usize],
            signer_seeds: self.authorization.signer_seeds(),
        }
    }

    /// Builds the call that performs the request.
    pub fn to_invocation(&self) -> (call: Invocation)
        ensures
            call@ == self.invocation(),
    {
        let instruction = system_create_account(
            &self.payer,
            &self.account,
            self.lamports,
            self.space,
            &self.owner,
        );
        let mut accounts: Vec<usize> = Vec::new();
        accounts.push(0);
        accounts.push(1);
        accounts.push(2);
        assert(accounts@ =~= seq![0usize, 1usize, 2usize]);
        Invocation { instruction, accounts, signer_seeds: self.authorization.to_signer_seeds() }
    }
}

impl Transfer {
    /// The instruction that carries the request to the system program.
    pub open spec fn instruction(self) -> InstructionView {
        transfer_instruction(self.from@, self.to@, self.lamports)
    }

    /// The call that performs the request: the vault and the recipient are
    /// the second and third account of the list.
    pub open spec fn invocation(self) -> InvocationView {
        InvocationView {
            instruction: self.instruction(),
            accounts: seq![1usize, 2usize],
            signer_seeds: self.authorization.signer_seeds(),
        }
    }

    /// Builds the call that performs the request.
    pub fn to_invocation(&self) -> (call: Invocation)
        ensures
            call@ == self.invocation(),
    {
        let instruction = system_transfer(&self.from, &self.to, self.lamports);
        let mut accounts: Vec<usize> = Vec::new();
        accounts.push(1);
        accounts.push(2);
        assert(accounts@ =~= seq![1usize, 2usize]);
        Invocation { instruction, accounts, signer_seeds: self.authorization.to_signer_seeds() }
    }
}

/// What an invocation of the vault program leaves behind on success.
#[derive(Clone, Debug, PartialEq, Eq)]
pub enum Effect {
    /// The balances hold the result; nothing is left to do.
    Settled,
    /// The runtime has yet to perform this call, and the invocation succeeds
    /// if the call does.
    Invoke(Invocation),
}

/// An effect with its sequences taken as mathematical ones.
pub ghost enum EffectView {
    Settled,
    Invoke(InvocationView),
}

impl View for Effect {
    type V = EffectView;

    open spec fn view(&self) -> EffectView {
        match *self {
            Effect::Settled => EffectView::Settled,
            Effect::Invoke(call) => EffectView::Invoke(call@),
        }
    }
}

} // verus!
