//! The vault authority: the address that signs for the vault.
//!
//! The authority belongs to no key pair. It is derived from a fixed seed, a
//! one-byte bump and the program's own address, and only that program can
//! sign as it, by naming the seed and the bump. The derivation itself is the
//! host's; this module asks for it and carries the outcome.

use vstd::prelude::*;
use anchor_lang::prelude::Pubkey;
use crate::config::Address;
use crate::config::ESCROW_PDA_SEED;
use crate::error::SpinError;

verus! {

/// What `Pubkey::try_find_program_address` of `solana_program` returns for
/// the one seed `seed` and the program at `program_id`: the derived address
/// with its bump, or `None` where the search finds none.
pub uninterp spec fn program_address(seed: Seq<char>, program_id: Seq<u8>) -> Option<(Address, u8)>;

/// Calls `Pubkey::try_find_program_address` of `solana_program` with `seed`
/// as the only seed. The outcome is a function of the seed and the program
/// address alone, and is known here by the name `program_address` only.
#[verifier::external_body]
fn try_find_program_address(seed: &str, program_id: &Address) -> (r: Option<(Address, u8)>)
    ensures
        r == program_address(seed@, program_id@),
{
    Pubkey::try_find_program_address(&[seed.as_bytes()], &Pubkey::new_from_array(*program_id)).map(
        |(address, bump)| (address.to_bytes(), bump),
    )
}

/// The right to sign as the vault: the derived address, and the bump that,
/// with the fixed seed, derives it.
#[derive(Clone, Copy, Debug, PartialEq, Eq)]
pub struct AuthorityCapability {
    /// The derived address.
    pub address: Address,
    /// The bump that, behind the fixed seed, derives the address.
    pub bump: u8,
}

/// What a derivation outcome stands for: the capability made of the address
/// and the bump, or `AuthorityUnavailable` where nothing was derived.
pub open spec fn authority_of(derived: Option<(Address, u8)>) -> Result<
    AuthorityCapability,
    SpinError,
> {
    match derived {
        Some((address, bump)) => Ok(AuthorityCapability { address, bump }),
        None => Err(SpinError::AuthorityUnavailable),
    }
}

/// The vault authority of the program at `program_id`: what the fixed seed
/// derives for it.
pub open spec fn vault_authority(program_id: Seq<u8>) -> Result<AuthorityCapability, SpinError> {
    authority_of(program_address(ESCROW_PDA_SEED@, program_id))
}

/// Turns a derivation outcome into the capability it stands for, or into
/// `AuthorityUnavailable` where nothing was derived.
pub fn authority_from_derived(derived: Option<(Address, u8)>) -> (r: Result<
    AuthorityCapability,
    SpinError,
>)
    ensures
        r == authority_of(derived),
{
    match derived {
        Some((address, bump)) => Ok(AuthorityCapability { address, bump }),
        None => Err(SpinError::AuthorityUnavailable),
    }
}

/// Derives the vault authority of the program at `program_id` from the fixed
/// seed.
pub fn derive_vault_authority(program_id: &Address) -> (r: Result<AuthorityCapability, SpinError>)
    ensures
        r == vault_authority(program_id@),
{
    authority_from_derived(try_find_program_address(ESCROW_PDA_SEED, program_id))
}

} // verus!
