//! The address of a vault, and the proof that the program controls it.
//!
//! A vault lives at the address derived from the seeds `"vault"` and the
//! owner's address under the program's identity. The derivation also gives a
//! bump seed, the one extra byte that moves the address off the curve of
//! ordinary keys. Nobody holds a private key for such an address: the program
//! proves its authority over it by presenting the seeds and the bump.

use vstd::prelude::*;
use solana_program::pubkey::Pubkey;
use crate::address::Address;
use crate::error::VaultError;

verus! {

/// What the ledger's derivation gives for a list of seeds under a program's
/// identity: the derived address and its bump seed, or nothing where no bump
/// seed leads to a valid address.
pub uninterp spec fn program_address(seeds: Seq<Seq<u8>>, program_id: Seq<u8>) -> Option<(Seq<u8>, u8)>;

/// A derivation's result with its address taken by its bytes.
pub open spec fn derived_view(derived: Option<(Address, u8)>) -> Option<(Seq<u8>, u8)> {
    match derived {
        Some((address, bump)) => Some((address@, bump)),
        None => None,
    }
}

/// The bytes of each seed of a list.
pub open spec fn seeds_view(seeds: Seq<Vec<u8>>) -> Seq<Seq<u8>> {
    Seq::new(seeds.len(), |i: int| seeds[i]@)
}

/// Calls `solana_program::pubkey::Pubkey::try_find_program_address`.
///
/// Trusted: the result is the one that `program_address` names for the same
/// seeds and program identity. The outside function is a pure computation on
/// its arguments; it searches the bump seeds from 255 downwards and returns
/// `None` where none fits or a seed is too long.
#[verifier::external_body]
fn try_find_program_address(seeds: &Vec<Vec<u8>>, program_id: &Address) -> (derived: Option<(Address, u8)>)
    ensures
        derived_view(derived) == program_address(seeds_view(seeds@), program_id@),
{
    let parts: Vec<&[u8]> = seeds.iter().map(|seed| seed.as_slice()).collect();
    let found = Pubkey::try_find_program_address(&parts, &Pubkey::new_from_array(program_id.bytes));
    found.map(|(key, bump)| (Address { bytes: key.to_bytes() }, bump))
}

/// The seed that all vault addresses share: the ASCII letters of `vault`.
pub const VAULT_SEED: [u8; 5] = [118, 97, 117, 108, 116];

/// The seeds from which the vault of `owner` is derived.
pub open spec fn vault_seeds(owner: Seq<u8>) -> Seq<Seq<u8>> {
    seq![VAULT_SEED@, owner]
}

/// The vault address of `owner` under `program_id`, with its bump seed.
pub open spec fn vault_of(owner: Seq<u8>, program_id: Seq<u8>) -> Option<(Seq<u8>, u8)> {
    program_address(vault_seeds(owner), program_id)
}

/// The bytes of the shared seed, as an owned vector.
fn vault_seed() -> (seed: Vec<u8>)
    ensures
        seed@ == VAULT_SEED@,
{
    let mut seed: Vec<u8> = Vec::new();
    let mut i: usize = 0;
    while i < 5
        invariant
            i <= 5,
            seed@ == VAULT_SEED@.subrange(0, i as int),
        decreases 5 - i,
    {
        seed.push(VAULT_SEED[i]);
        i += 1;
    }
    seed
}

/// Derives the vault address of `owner` under `program_id`.
pub fn vault_address(owner: &Address, program_id: &Address) -> (derived: Option<(Address, u8)>)
    ensures
        derived_view(derived) == vault_of(owner@, program_id@),
{
    let mut seeds: Vec<Vec<u8>> = Vec::new();
    seeds.push(vault_seed());
    seeds.push(owner.to_vec());
    assert(seeds_view(seeds@) =~= vault_seeds(owner@));
    try_find_program_address(&seeds, program_id)
}

/// What the comparison of a supplied vault address with the derived one
/// gives: the bump seed where they agree.
pub open spec fn vault_check(
    supplied: Seq<u8>,
    derived: Option<(Seq<u8>, u8)>,
) -> Result<u8, VaultError> {
    match derived {
        None => Err(VaultError::NoDerivedAddress),
        Some((address, bump)) => if address == supplied {
            Ok(bump)
        } else {
            Err(VaultError::InvalidArgument)
        },
    }
}

/// Checks that `supplied` is the derived vault address and returns the bump
/// seed of the derivation.
pub fn check_vault(
    supplied: &Address,
    derived: Option<(Address, u8)>,
) -> (r: Result<u8, VaultError>)
    ensures
        r == vault_check(supplied@, derived_view(derived)),
{
    match derived {
        None => Err(VaultError::NoDerivedAddress),
        Some((address, bump)) => {
            if address == *supplied {
                Ok(bump)
            } else {
                Err(VaultError::InvalidArgument)
            }
        },
    }
}

/// The proof of the program's authority over the vault of `owner`: the seeds
/// of the derivation and its bump seed, under the program's identity.
#[derive(Clone, Copy, Debug, PartialEq, Eq)]
pub struct AuthorizationProof {
    /// The owner whose address is the second seed.
    pub owner: Address,
    /// The bump seed of the derivation.
    pub bump: u8,
    /// The identity of the program that derived the address.
    pub program_id: Address,
}

impl AuthorizationProof {
    /// The seeds that stand in for the vault's signature: those of the
    /// derivation, then the bump seed as a seed of one byte.
    pub open spec fn signer_seeds(self) -> Seq<Seq<u8>> {
        vault_seeds(self.owner@).push(seq![self.bump])
    }

    /// The seeds that stand in for the vault's signature.
    pub fn to_signer_seeds(&self) -> (seeds: Vec<Vec<u8>>)
        ensures
            seeds_view(seeds@) == self.signer_seeds(),
    {
        let mut bump: Vec<u8> = Vec::new();
        bump.push(self.bump);
        let mut seeds: Vec<Vec<u8>> = Vec::new();
        seeds.push(vault_seed());
        seeds.push(self.owner.to_vec());
        seeds.push(bump);
        assert(seeds_view(seeds@) =~= self.signer_seeds());
        seeds
    }
}

/// The derivation is a function of the owner and the program identity: two
/// derivations for the same owner under the same program give the same
/// address and the same bump seed.
pub proof fn vault_address_is_deterministic(
    owner: Address,
    program_id: Address,
    first: Option<(Address, u8)>,
    second: Option<(Address, u8)>,
)
    requires
        derived_view(first) == vault_of(owner@, program_id@),
        derived_view(second) == vault_of(owner@, program_id@),
    ensures
        first == second,
{
    match (first, second) {
        (Some((a, _)), Some((b, _))) => {
            crate::address::address_determined_by_view(a, b);
        },
        _ => {},
    }
}

} // verus!
