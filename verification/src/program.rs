//! The entry points of the wheel, each on the accounts it is given.

use vstd::prelude::*;
use crate::authority::derive_vault_authority;
use crate::authority::vault_authority;
use crate::catalog::ItemRewardMints;
use crate::catalog::SpinItem;
use crate::catalog::SpinItemList;
use crate::config::Address;
use crate::config::ENTROPY_RANGE;
use crate::config::REWARD_TOKEN_COUNT_PER_ITEM;
use crate::config::SPIN_ITEM_COUNT;
use crate::error::SpinError;
use crate::transfer::build_claim_transfer;
use crate::transfer::build_withdraw_transfer;
use crate::transfer::claim_transfer;
use crate::transfer::withdraw_transfer;
use crate::transfer::Claim;
use crate::transfer::TransferIntent;
use crate::transfer::Withdraw;
use crate::wheel::SampleTransform;

verus! {

/// The record of the vault: who set it up, and the bump that was given for
/// its authority.
#[derive(Clone, Copy, Debug, PartialEq, Eq)]
pub struct Pool {
    /// Who set the vault up.
    pub owner: Address,
    /// The bump that was given at the set-up.
    pub bump: u8,
}

impl Default for Pool {
    /// The record of a vault that nobody has set up: a zero owner, bump 0.
    fn default() -> (pool: Pool)
        ensures
            pool.owner@ == Seq::new(32, |k: int| 0u8),
            pool.bump == 0,
    {
        let owner: Address = [0u8; 32];
        assert(owner@ =~= Seq::new(32, |k: int| 0u8));
        Pool { owner, bump: 0 }
    }
}

/// The accounts of the set-up.
#[derive(Clone, Copy, Debug, PartialEq, Eq)]
pub struct Initialize {
    /// Who sets the wheel up, and pays for it.
    pub initializer: Address,
    /// The record of the vault.
    pub pool: Pool,
    /// The catalog.
    pub state: SpinItemList,
    /// The system program.
    pub system_program: Address,
}

/// The account of every operation on the catalog.
#[derive(Clone, Copy, Debug, PartialEq, Eq)]
pub struct SpinWheel {
    /// The catalog.
    pub state: SpinItemList,
}

/// Sets the wheel up: the vault is recorded as the initializer's, with the
/// bump given, and the catalog is a new one.
pub fn initialize(ctx: &mut Initialize, bump: u8) -> (r: Result<(), SpinError>)
    ensures
        r is Ok,
        final(ctx).pool == (Pool { owner: old(ctx).initializer, bump }),
        final(ctx).state@.is_empty(),
        final(ctx).state@.valid(),
        final(ctx).initializer == old(ctx).initializer,
        final(ctx).system_program == old(ctx).system_program,
{
    ctx.pool.owner = ctx.initializer;
    ctx.pool.bump = bump;
    ctx.state = SpinItemList::default();
    Ok(())
}

/// Appends a slot to the catalog. A full catalog refuses with
/// `CountOverflowAddItem` and stays as it is.
pub fn add_item(
    ctx: &mut SpinWheel,
    item_mint_list: [Address; REWARD_TOKEN_COUNT_PER_ITEM],
    count: u8,
    token_type: u8,
    ratio: u32,
    amount: u64,
) -> (r: Result<(), SpinError>)
    ensures
        final(ctx).state@ == old(ctx).state@.appended(
            SpinItem {
                reward_mints: ItemRewardMints { item_mint_list, count },
                token_type,
                ratio,
                amount,
            },
        ),
        r == if old(ctx).state@.is_full() {
            Err::<(), SpinError>(SpinError::CountOverflowAddItem)
        } else {
            Ok::<(), SpinError>(())
        },
        final(ctx).state@.valid(),
{
    ctx.state.add_spinitem(ItemRewardMints { item_mint_list, count }, token_type, ratio, amount)
}

/// Writes a slot of the catalog, and takes it into the active range where it
/// lay outside. An index at or past `SPIN_ITEM_COUNT` is refused with
/// `IndexOverflowSetItem` and the catalog stays as it is.
pub fn set_item(
    ctx: &mut SpinWheel,
    index: u8,
    item_mint_list: [Address; REWARD_TOKEN_COUNT_PER_ITEM],
    count: u8,
    token_type: u8,
    ratio: u32,
    amount: u64,
) -> (r: Result<(), SpinError>)
    ensures
        final(ctx).state@ == old(ctx).state@.with_slot(
            index as nat,
            SpinItem {
                reward_mints: ItemRewardMints { item_mint_list, count },
                token_type,
                ratio,
                amount,
            },
        ),
        r == if index >= SPIN_ITEM_COUNT {
            Err::<(), SpinError>(SpinError::IndexOverflowSetItem)
        } else {
            Ok::<(), SpinError>(())
        },
        final(ctx).state@.valid(),
{
    ctx.state.set_spinitem(
        index,
        ItemRewardMints { item_mint_list, count },
        token_type,
        ratio,
        amount,
    )
}

/// Spins the wheel on a sample drawn from the host clock and returns the
/// chosen slot. Whatever the clock says, the catalog afterwards is the one
/// that a spin on some sample of the entropy range gives, and the slot
/// returned is its last chosen one. Where the clock cannot be read, the
/// catalog stays as it is and the failure is `EntropyUnavailable`.
pub fn spin_wheel(ctx: &mut SpinWheel) -> (r: Result<u8, SpinError>)
    ensures
        r matches Ok(index) ==> index == final(ctx).state@.last_spinindex && exists|sample: nat|
            sample < ENTROPY_RANGE && final(ctx).state@ == #[trigger] old(ctx).state@.spun(
                SampleTransform::Cubic.spec_apply(sample),
            ),
        r matches Err(e) ==> e == SpinError::EntropyUnavailable && final(ctx).state@ == old(
            ctx,
        ).state@,
        final(ctx).state@.valid(),
{
    match ctx.state.get_spinresult() {
        Ok(()) => Ok(ctx.state.last_spinindex()),
        Err(e) => Err(e),
    }
}

/// Builds the intent that pays a claim of `amount`, signed for by the vault
/// authority of the program at `program_id`. Where no authority can be
/// derived, the failure is `AuthorityUnavailable`.
pub fn claim(ctx: &Claim, program_id: &Address, amount: u64) -> (r: Result<TransferIntent, SpinError>)
    ensures
        r == match vault_authority(program_id@) {
            Ok(signer) => Ok::<TransferIntent, SpinError>(claim_transfer(*ctx, signer, amount)),
            Err(e) => Err::<TransferIntent, SpinError>(e),
        },
{
    match derive_vault_authority(program_id) {
        Ok(signer) => Ok(build_claim_transfer(ctx, signer, amount)),
        Err(e) => Err(e),
    }
}

/// Builds the intent that withdraws `amount` from the vault, signed for by
/// the vault authority of the program at `program_id`. Where no authority
/// can be derived, the failure is `AuthorityUnavailable`.
pub fn withdraw_paid_tokens(ctx: &Withdraw, program_id: &Address, amount: u64) -> (r: Result<
    TransferIntent,
    SpinError,
>)
    ensures
        r == match vault_authority(program_id@) {
            Ok(signer) => Ok::<TransferIntent, SpinError>(withdraw_transfer(*ctx, signer, amount)),
            Err(e) => Err::<TransferIntent, SpinError>(e),
        },
{
    match derive_vault_authority(program_id) {
        Ok(signer) => Ok(build_withdraw_transfer(ctx, signer, amount)),
        Err(e) => Err(e),
    }
}

} // verus!
