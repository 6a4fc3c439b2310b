//! The fixed parameters of the wheel.

use vstd::prelude::*;

verus! {

/// A 32-byte account or mint address.
pub type Address = [u8; 32];

/// The fixed seed from which the vault authority is derived.
pub const ESCROW_PDA_SEED: &'static str = "sw_game_vault_auth";

/// The number of slots in the catalog.
pub const SPIN_ITEM_COUNT: usize = 15;

/// The number of reward mints that one slot can name.
pub const REWARD_TOKEN_COUNT_PER_ITEM: usize = 10;

/// The number of reward mints that the whole catalog can name.
pub const MAX_REWARD_TOKEN_COUNT: usize = 150;

/// The number of values that an entropy sample can take: samples run from 0
/// up to, and not including, this.
pub const ENTROPY_RANGE: u32 = 100;

} // verus!
