//! Transfer intents: requests to move assets, signed for by the vault.
//!
//! Nothing here moves an asset. An intent names the accounts, the quantity
//! and the signing authority; carrying it out, and refusing it where the
//! authority does not match, is the token program's part.

use vstd::prelude::*;
use crate::authority::AuthorityCapability;
use crate::config::Address;

verus! {

/// The accounts of a token transfer and the program that is asked to carry
/// it out, with the capability that signs for the authority once attached.
#[derive(Clone, Copy, Debug, PartialEq, Eq)]
pub struct TransferContext {
    /// The program that carries the transfer out.
    pub program: Address,
    /// The account that is debited.
    pub from: Address,
    /// The account that is credited.
    pub to: Address,
    /// The account in whose name the transfer is made.
    pub authority: Address,
    /// The capability that signs for the authority.
    pub signer: Option<AuthorityCapability>,
}

impl TransferContext {
    /// The same transfer, signed for with `signer`.
    pub open spec fn spec_with_signer(self, signer: AuthorityCapability) -> TransferContext {
        TransferContext {
            program: self.program,
            from: self.from,
            to: self.to,
            authority: self.authority,
            signer: Some(signer),
        }
    }

    /// Attaches the capability that signs for the authority.
    pub fn with_signer(self, signer: AuthorityCapability) -> (r: TransferContext)
        ensures
            r == self.spec_with_signer(signer),
    {
        TransferContext {
            program: self.program,
            from: self.from,
            to: self.to,
            authority: self.authority,
            signer: Some(signer),
        }
    }
}

/// A transfer that is asked for and not yet carried out.
#[derive(Clone, Copy, Debug, PartialEq, Eq)]
pub struct TransferIntent {
    /// The accounts, the program and the signer.
    pub context: TransferContext,
    /// The quantity to move.
    pub amount: u64,
}

/// The accounts of a claim: a player takes a prize out of a reward account.
#[derive(Clone, Copy, Debug, PartialEq, Eq)]
pub struct Claim {
    /// The player who claims.
    pub owner: Address,
    /// The account of the catalog.
    pub state: Address,
    /// The account of the vault, in whose name the prize is paid.
    pub pool: Address,
    /// The reward account that pays.
    pub source_reward_account: Address,
    /// The player's account that receives.
    pub dest_reward_account: Address,
    /// The token program.
    pub token_program: Address,
}

impl Claim {
    /// The transfer of a claim, not yet signed for: out of the reward
    /// account, into the player's, in the vault's name.
    pub open spec fn spec_transfer_context(self) -> TransferContext {
        TransferContext {
            program: self.token_program,
            from: self.source_reward_account,
            to: self.dest_reward_account,
            authority: self.pool,
            signer: None,
        }
    }

    /// Names the accounts of the transfer that pays the claim.
    pub fn into_transfer_to_pda_context(&self) -> (r: TransferContext)
        ensures
            r == self.spec_transfer_context(),
    {
        TransferContext {
            program: self.token_program,
            from: self.source_reward_account,
            to: self.dest_reward_account,
            authority: self.pool,
            signer: None,
        }
    }
}

/// The accounts of a withdrawal: the vault's owner takes funds back.
#[derive(Clone, Copy, Debug, PartialEq, Eq)]
pub struct Withdraw {
    /// The account of the vault, in whose name the funds are moved.
    pub pool: Address,
    /// The account that pays.
    pub source_account: Address,
    /// The account that receives.
    pub dest_account: Address,
    /// The token program.
    pub token_program: Address,
}

impl Withdraw {
    /// The transfer of a withdrawal, not yet signed for: out of the source
    /// account, into the destination, in the vault's name.
    pub open spec fn spec_transfer_context(self) -> TransferContext {
        TransferContext {
            program: self.token_program,
            from: self.source_account,
            to: self.dest_account,
            authority: self.pool,
            signer: None,
        }
    }

    /// Names the accounts of the transfer that makes the withdrawal.
    pub fn into_transfer_from_pda_context(&self) -> (r: TransferContext)
        ensures
            r == self.spec_transfer_context(),
    {
        TransferContext {
            program: self.token_program,
            from: self.source_account,
            to: self.dest_account,
            authority: self.pool,
            signer: None,
        }
    }
}

/// The intent that pays a claim of `amount`, signed for with `signer`.
pub open spec fn claim_transfer(accounts: Claim, signer: AuthorityCapability, amount: u64) -> TransferIntent {
    TransferIntent { context: accounts.spec_transfer_context().spec_with_signer(signer), amount }
}

/// The intent that withdraws `amount`, signed for with `signer`.
pub open spec fn withdraw_transfer(
    accounts: Withdraw,
    signer: AuthorityCapability,
    amount: u64,
) -> TransferIntent {
    TransferIntent { context: accounts.spec_transfer_context().spec_with_signer(signer), amount }
}

/// Builds the intent that pays a claim: `amount` out of the reward account
/// into the player's, in the vault's name, signed for with `signer`. The
/// amount is taken as given: it is held against no balance, no slot and no
/// spin.
pub fn build_claim_transfer(accounts: &Claim, signer: AuthorityCapability, amount: u64) -> (intent:
    TransferIntent)
    ensures
        intent == claim_transfer(*accounts, signer, amount),
{
    TransferIntent { context: accounts.into_transfer_to_pda_context().with_signer(signer), amount }
}

/// Builds the intent that withdraws funds: `amount` out of the source account
/// into the destination, in the vault's name, signed for with `signer`. The
/// amount is taken as given, and who may withdraw is decided elsewhere.
pub fn build_withdraw_transfer(
    accounts: &Withdraw,
    signer: AuthorityCapability,
    amount: u64,
) -> (intent: TransferIntent)
    ensures
        intent == withdraw_transfer(*accounts, signer, amount),
{
    TransferIntent { context: accounts.into_transfer_from_pda_context().with_signer(signer), amount }
}

} // verus!
