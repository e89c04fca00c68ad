//! The instruction router and the three handlers.
//!
//! `process_instruction` reads the opcode and hands the invocation to
//! `create_account`, `deposit` or `withdraw`. No handler calls another. A
//! handler either fails, and then no balance has changed, or it succeeds:
//! a deposit has then moved its amount between two balances, and the other
//! two operations have described the call that the runtime is to perform.

use vstd::prelude::*;
use crate::accounts::{slots_in_range, total, total_after_update, AccountRef, Accounts};
use crate::address::Address;
use crate::derivation::{
    check_vault, derived_view, vault_address, vault_check, vault_of, AuthorizationProof,
};
use crate::error::VaultError;
use crate::payload::{amount_of, decode_amount, decode_opcode, opcode_of, Opcode};
use crate::request::{Allocation, Effect, EffectView, Invocation, InvocationView, Transfer};
use crate::system::{minimum_balance, rent_exempt_minimum};

verus! {

/// The share of its balance that a vault releases in one withdrawal: a
/// tenth, rounded down.
pub open spec fn withdrawal_share(balance: nat) -> nat {
    balance / 10
}

/// The result of a handler that describes a call, with the call taken by
/// its view.
pub open spec fn call_view(r: Result<Invocation, VaultError>) -> Result<
    InvocationView,
    VaultError,
> {
    match r {
        Ok(call) => Ok(call@),
        Err(e) => Err(e),
    }
}

/// The request by which `owner` opens the vault at `vault`, given what the
/// derivation gave for the owner's vault address.
pub open spec fn allocation_plan(
    program_id: Address,
    owner: AccountRef,
    vault: AccountRef,
    derived: Option<(Seq<u8>, u8)>,
) -> Result<Allocation, VaultError> {
    match vault_check(vault.key@, derived) {
        Err(e) => Err(e),
        Ok(bump) => Ok(
            Allocation {
                payer: owner.key,
                account: vault.key,
                lamports: rent_exempt_minimum(0) as u64,
                space: 0,
                owner: program_id,
                authorization: AuthorizationProof { owner: owner.key, bump, program_id },
            },
        ),
    }
}

/// Decides how the vault of `owner` is opened.
///
/// `derived` is the result of the derivation for the owner's vault. The
/// request is refused unless `vault` is at the derived address. Otherwise
/// it asks for an account without data at that address, owned by the
/// program, paid for by the owner, and funded with exactly the balance that
/// exempts such an account from rent.
pub fn plan_allocation(
    program_id: &Address,
    owner: &AccountRef,
    vault: &AccountRef,
    derived: Option<(Address, u8)>,
) -> (r: Result<Allocation, VaultError>)
    ensures
        r == allocation_plan(*program_id, *owner, *vault, derived_view(derived)),
{
    let bump: u8 = check_vault(&vault.key, derived)?;
    Ok(
        Allocation {
            payer: owner.key,
            account: vault.key,
            lamports: minimum_balance(0),
            space: 0,
            owner: *program_id,
            authorization: AuthorizationProof { owner: owner.key, bump, program_id: *program_id },
        },
    )
}

/// What `create_account` returns for a list of account references.
pub open spec fn create_account_outcome(
    program_id: Address,
    refs: Seq<AccountRef>,
) -> Result<InvocationView, VaultError> {
    if refs.len() < 3 {
        Err(VaultError::NotEnoughAccountKeys)
    } else {
        match allocation_plan(program_id, refs[0], refs[1], vault_of(refs[0].key@, program_id@)) {
            Err(e) => Err(e),
            Ok(allocation) => Ok(allocation.invocation()),
        }
    }
}

/// Opens the vault of an owner.
///
/// The accounts are the owner, the vault and the system program, in this
/// order. The vault must be at the address derived for the owner; the call
/// that is returned then asks the system program to allocate it. No balance
/// is read or changed here.
pub fn create_account(
    program_id: &Address,
    accounts: &Accounts,
) -> (r: Result<Invocation, VaultError>)
    ensures
        call_view(r) == create_account_outcome(*program_id, accounts.refs@),
{
    if accounts.refs.len() < 3 {
        return Err(VaultError::NotEnoughAccountKeys);
    }
    let owner: AccountRef = accounts.refs[0];
    let vault: AccountRef = accounts.refs[1];
    let derived = vault_address(&owner.key, program_id);
    match plan_allocation(program_id, &owner, &vault, derived) {
        Ok(allocation) => Ok(allocation.to_invocation()),
        Err(e) => Err(e),
    }
}

/// The balances after crediting `amount` to the slot `to` and then
/// debiting it from the slot `from`, where both steps stay within the range
/// of a balance.
pub open spec fn moved(
    balances: Seq<u64>,
    from: int,
    to: int,
    amount: u64,
) -> Result<Seq<u64>, VaultError> {
    if balances[to] + amount > u64::MAX {
        Err(VaultError::BalanceOverflow)
    } else {
        let credited = balances.update(to, (balances[to] + amount) as u64);
        if credited[from] < amount {
            Err(VaultError::BalanceUnderflow)
        } else {
            Ok(credited.update(from, (credited[from] - amount) as u64))
        }
    }
}

/// The balances that a deposit leaves behind, or the reason for which it
/// fails.
pub open spec fn deposit_outcome(
    refs: Seq<AccountRef>,
    balances: Seq<u64>,
    data: Seq<u8>,
) -> Result<Seq<u64>, VaultError> {
    if refs.len() < 2 {
        Err(VaultError::NotEnoughAccountKeys)
    } else if !refs[1].is_writable {
        Err(VaultError::InvalidAccountData)
    } else {
        match amount_of(data) {
            None => Err(VaultError::PayloadTooShort),
            Some(amount) => moved(balances, refs[0].slot as int, refs[1].slot as int, amount),
        }
    }
}

/// Moves the amount in the payload from a depositor into a vault.
///
/// The accounts are the depositor and the vault, in this order, and the
/// vault must be writable. The vault is credited first and the depositor
/// debited second; where either step would leave the range of a balance the
/// deposit fails. Whether it fails or not, the balances add up to what they
/// did before, and after a failure each of them is what it was.
///
/// The vault is not compared with the address derived for the depositor:
/// any writable account can be credited. Nor is the depositor's balance
/// tested beforehand: a debit beyond it is a fault of the arithmetic, not a
/// refusal with a code of its own.
pub fn deposit(accounts: &mut Accounts, instruction_data: &[u8]) -> (r: Result<(), VaultError>)
    requires
        old(accounts).wf(),
    ensures
        final(accounts).refs@ == old(accounts).refs@,
        final(accounts).wf(),
        match deposit_outcome(old(accounts).refs@, old(accounts).balances@, instruction_data@) {
            Ok(balances) => r is Ok && final(accounts).balances@ == balances,
            Err(e) => r == Err::<(), VaultError>(e) && final(accounts).balances@ == old(
                accounts,
            ).balances@,
        },
        total(final(accounts).balances@) == total(old(accounts).balances@),
{
    if accounts.refs.len() < 2 {
        return Err(VaultError::NotEnoughAccountKeys);
    }
    let depositor: AccountRef = accounts.refs[0];
    let vault: AccountRef = accounts.refs[1];
    if !vault.is_writable {
        return Err(VaultError::InvalidAccountData);
    }
    let amount: u64 = match decode_amount(instruction_data) {
        Some(amount) => amount,
        None => {
            return Err(VaultError::PayloadTooShort);
        },
    };
    let before: u64 = accounts.balances[vault.slot];
    if amount > u64::MAX - before {
        return Err(VaultError::BalanceOverflow);
    }
    let credited: u64 = before + amount;
    let held: u64 = if depositor.slot == vault.slot {
        credited
    } else {
        accounts.balances[depositor.slot]
    };
    if held < amount {
        return Err(VaultError::BalanceUnderflow);
    }
    accounts.balances[vault.slot] = credited;
    accounts.balances[depositor.slot] = held - amount;
    proof {
        deposit_conserves_total(old(accounts).refs@, old(accounts).balances@, instruction_data@);
    }
    Ok(())
}

/// The request by which a tenth of the balance of the vault of `owner` goes
/// to `recipient`, given what the derivation gave for the owner's vault
/// address.
pub open spec fn withdrawal_plan(
    program_id: Address,
    owner: AccountRef,
    vault: AccountRef,
    recipient: AccountRef,
    vault_balance: u64,
    derived: Option<(Seq<u8>, u8)>,
) -> Result<Transfer, VaultError> {
    match vault_check(vault.key@, derived) {
        Err(e) => Err(e),
        Ok(bump) => Ok(
            Transfer {
                from: vault.key,
                to: recipient.key,
                lamports: withdrawal_share(vault_balance as nat) as u64,
                authorization: AuthorizationProof { owner: owner.key, bump, program_id },
            },
        ),
    }
}

/// Decides how much leaves the vault of `owner`, and under which authority.
///
/// `derived` is the result of the derivation for the owner's vault. The
/// request is refused unless `vault` is at the derived address. Otherwise
/// it moves a tenth of the vault's balance, rounded down, to `recipient`,
/// whoever that is.
pub fn plan_withdrawal(
    program_id: &Address,
    owner: &AccountRef,
    vault: &AccountRef,
    recipient: &AccountRef,
    vault_balance: u64,
    derived: Option<(Address, u8)>,
) -> (r: Result<Transfer, VaultError>)
    ensures
        r == withdrawal_plan(
            *program_id,
            *owner,
            *vault,
            *recipient,
            vault_balance,
            derived_view(derived),
        ),
{
    let bump: u8 = check_vault(&vault.key, derived)?;
    Ok(
        Transfer {
            from: vault.key,
            to: recipient.key,
            lamports: vault_balance / 10,
            authorization: AuthorizationProof { owner: owner.key, bump, program_id: *program_id },
        },
    )
}

/// What `withdraw` returns for a list of account references and their
/// balances.
pub open spec fn withdraw_outcome(
    program_id: Address,
    refs: Seq<AccountRef>,
    balances: Seq<u64>,
) -> Result<InvocationView, VaultError> {
    if refs.len() < 3 {
        Err(VaultError::NotEnoughAccountKeys)
    } else {
        match withdrawal_plan(
            program_id,
            refs[0],
            refs[1],
            refs[2],
            balances[refs[1].slot as int],
            vault_of(refs[0].key@, program_id@),
        ) {
            Err(e) => Err(e),
            Ok(transfer) => Ok(transfer.invocation()),
        }
    }
}

/// Releases a tenth of a vault.
///
/// The accounts are the owner, the vault and the recipient, in this order.
/// The vault must be at the address derived for the owner; the call that is
/// returned then asks the system program to move a tenth of the vault's
/// balance to the recipient. No balance is changed here.
pub fn withdraw(
    program_id: &Address,
    accounts: &Accounts,
) -> (r: Result<Invocation, VaultError>)
    requires
        accounts.wf(),
    ensures
        call_view(r) == withdraw_outcome(*program_id, accounts.refs@, accounts.balances@),
{
    if accounts.refs.len() < 3 {
        return Err(VaultError::NotEnoughAccountKeys);
    }
    let owner: AccountRef = accounts.refs[0];
    let vault: AccountRef = accounts.refs[1];
    let recipient: AccountRef = accounts.refs[2];
    let derived = vault_address(&owner.key, program_id);
    let vault_balance: u64 = accounts.balances[vault.slot];
    match plan_withdrawal(program_id, &owner, &vault, &recipient, vault_balance, derived) {
        Ok(transfer) => Ok(transfer.to_invocation()),
        Err(e) => Err(e),
    }
}

/// What an invocation leaves behind: its effect and the balances after it,
/// or the reason for which it fails.
pub open spec fn process_outcome(
    program_id: Address,
    refs: Seq<AccountRef>,
    balances: Seq<u64>,
    data: Seq<u8>,
) -> Result<(EffectView, Seq<u64>), VaultError> {
    match opcode_of(data) {
        None => Err(VaultError::InvalidInstructionData),
        Some(Opcode::CreateVault) => match create_account_outcome(program_id, refs) {
            Ok(call) => Ok((EffectView::Invoke(call), balances)),
            Err(e) => Err(e),
        },
        Some(Opcode::Deposit) => match deposit_outcome(refs, balances, data) {
            Ok(after) => Ok((EffectView::Settled, after)),
            Err(e) => Err(e),
        },
        Some(Opcode::Withdraw) => match withdraw_outcome(program_id, refs, balances) {
            Ok(call) => Ok((EffectView::Invoke(call), balances)),
            Err(e) => Err(e),
        },
    }
}

/// Runs one invocation of the vault program.
///
/// The first byte of the payload selects the operation: 0 opens a vault, 1
/// deposits, 2 withdraws. An empty payload and every other first byte are
/// refused. Whatever the reason of a failure, the balances are then what
/// they were.
pub fn process_instruction(
    program_id: &Address,
    accounts: &mut Accounts,
    instruction_data: &[u8],
) -> (r: Result<Effect, VaultError>)
    requires
        old(accounts).wf(),
    ensures
        final(accounts).refs@ == old(accounts).refs@,
        final(accounts).wf(),
        match process_outcome(
            *program_id,
            old(accounts).refs@,
            old(accounts).balances@,
            instruction_data@,
        ) {
            Ok((effect, balances)) => r is Ok && r->Ok_0@ == effect && final(accounts).balances@
                == balances,
            Err(e) => r == Err::<Effect, VaultError>(e),
        },
        r is Err ==> final(accounts).balances@ == old(accounts).balances@,
        instruction_data@.len() == 0 || instruction_data@[0] >= 3 ==> r == Err::<
            Effect,
            VaultError,
        >(VaultError::InvalidInstructionData),
        total(final(accounts).balances@) == total(old(accounts).balances@),
{
    let opcode: Opcode = match decode_opcode(instruction_data) {
        Ok(opcode) => opcode,
        Err(e) => {
            return Err(e);
        },
    };
    match opcode {
        Opcode::CreateVault => match create_account(program_id, accounts) {
            Ok(call) => Ok(Effect::Invoke(call)),
            Err(e) => Err(e),
        },
        Opcode::Deposit => match deposit(accounts, instruction_data) {
            Ok(()) => Ok(Effect::Settled),
            Err(e) => Err(e),
        },
        Opcode::Withdraw => match withdraw(program_id, accounts) {
            Ok(call) => Ok(Effect::Invoke(call)),
            Err(e) => Err(e),
        },
    }
}

/// A deposit conserves funds: where it succeeds, the balances after it add
/// up to what they did before.
pub proof fn deposit_conserves_total(refs: Seq<AccountRef>, balances: Seq<u64>, data: Seq<u8>)
    requires
        slots_in_range(refs, balances),
        deposit_outcome(refs, balances, data) is Ok,
    ensures
        total(deposit_outcome(refs, balances, data)->Ok_0) == total(balances),
        deposit_outcome(refs, balances, data)->Ok_0.len() == balances.len(),
{
    let amount = amount_of(data)->Some_0;
    let from = refs[0].slot as int;
    let to = refs[1].slot as int;
    assert(refs[0].slot < balances.len());
    assert(refs[1].slot < balances.len());
    let credited = balances.update(to, (balances[to] + amount) as u64);
    total_after_update(balances, to, (balances[to] + amount) as u64);
    total_after_update(credited, from, (credited[from] - amount) as u64);
}

/// A deposit between two different accounts adds its amount to the vault's
/// balance, takes it from the depositor's, and leaves every other balance
/// alone. A deposit from an account into itself leaves all balances alone.
pub proof fn deposit_moves_amount(refs: Seq<AccountRef>, balances: Seq<u64>, data: Seq<u8>)
    requires
        slots_in_range(refs, balances),
        deposit_outcome(refs, balances, data) is Ok,
    ensures
        ({
            let after = deposit_outcome(refs, balances, data)->Ok_0;
            let amount = amount_of(data)->Some_0;
            let from = refs[0].slot as int;
            let to = refs[1].slot as int;
            &&& from != to ==> after[to] == balances[to] + amount
            &&& from != to ==> after[from] == balances[from] - amount
            &&& from == to ==> after == balances
            &&& forall|slot: int|
                0 <= slot < balances.len() && slot != from && slot != to ==> after[slot]
                    == balances[slot]
        }),
{
    let after = deposit_outcome(refs, balances, data)->Ok_0;
    assert(refs[0].slot < balances.len());
    assert(refs[1].slot < balances.len());
    if refs[0].slot == refs[1].slot {
        assert(after =~= balances);
    }
}

/// A withdrawal releases a tenth of the balance, rounded down: never more
/// than the vault holds, and nothing from a vault that holds less than ten
/// units.
pub proof fn withdrawal_share_is_a_truncated_tenth(balance: nat)
    ensures
        10 * withdrawal_share(balance) <= balance < 10 * withdrawal_share(balance) + 10,
        withdrawal_share(balance) <= balance,
        balance < 10 ==> withdrawal_share(balance) == 0,
{
}

/// Opening a vault asks for exactly what exempts an empty account from
/// rent, at the owner's expense: whenever a request is made, it funds the
/// vault with the rent-exempt minimum for no data, names the owner as the
/// payer and the program as the vault's owner, and asks for no data.
pub proof fn allocation_is_funded_by_the_owner(
    program_id: Address,
    owner: AccountRef,
    vault: AccountRef,
    derived: Option<(Seq<u8>, u8)>,
)
    requires
        allocation_plan(program_id, owner, vault, derived) is Ok,
    ensures
        ({
            let allocation = allocation_plan(program_id, owner, vault, derived)->Ok_0;
            &&& allocation.lamports == rent_exempt_minimum(0)
            &&& allocation.lamports == 890_880
            &&& allocation.space == 0
            &&& allocation.payer == owner.key
            &&& allocation.account == vault.key
            &&& allocation.owner == program_id
            &&& derived == Some((vault.key@, allocation.authorization.bump))
        }),
{
}

/// A vault account at any other address than the one derived for the owner
/// is refused: neither opening nor withdrawing describes a call for it, and
/// the invocation fails with `InvalidArgument`.
pub proof fn mismatched_vault_is_refused(
    program_id: Address,
    refs: Seq<AccountRef>,
    balances: Seq<u64>,
    data: Seq<u8>,
)
    requires
        refs.len() >= 3,
        vault_of(refs[0].key@, program_id@) is Some,
        vault_of(refs[0].key@, program_id@)->Some_0.0 != refs[1].key@,
    ensures
        create_account_outcome(program_id, refs) == Err::<InvocationView, VaultError>(
            VaultError::InvalidArgument,
        ),
        withdraw_outcome(program_id, refs, balances) == Err::<InvocationView, VaultError>(
            VaultError::InvalidArgument,
        ),
        opcode_of(data) == Some(Opcode::CreateVault) || opcode_of(data) == Some(Opcode::Withdraw)
            ==> process_outcome(program_id, refs, balances, data) == Err::<
            (EffectView, Seq<u64>),
            VaultError,
        >(VaultError::InvalidArgument),
{
}

/// A payload without a known opcode is refused, whatever the accounts: an
/// empty one, and one whose first byte is 3 or more.
pub proof fn unknown_opcode_is_refused(
    program_id: Address,
    refs: Seq<AccountRef>,
    balances: Seq<u64>,
    data: Seq<u8>,
)
    requires
        data.len() == 0 || data[0] >= 3,
    ensures
        process_outcome(program_id, refs, balances, data) == Err::<
            (EffectView, Seq<u64>),
            VaultError,
        >(VaultError::InvalidInstructionData),
{
}

} // verus!
