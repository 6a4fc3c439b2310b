//! Verified core of an on-ledger reward wheel: a fixed-capacity catalog of
//! weighted prize slots, the weighted slot resolver, and the construction of
//! vault-authorized transfer intents.
//!
//! The catalog and the resolver are proved against mathematical models of
//! their own. Two things are asked of the host and taken on trust: the
//! reading of its clock, of which nothing is claimed, and the derivation of
//! the vault authority, which is known by name only.

pub mod authority;
pub mod catalog;
pub mod config;
pub mod entropy;
pub mod error;
pub mod program;
pub mod transfer;
pub mod wheel;

pub use catalog::ItemRewardMints;
pub use catalog::SpinItemList;
pub use error::SpinError;
pub use program::add_item;
pub use program::claim;
pub use program::initialize;
pub use program::set_item;
pub use program::spin_wheel;
pub use program::withdraw_paid_tokens;
pub use program::Initialize;
pub use program::Pool;
pub use program::SpinWheel;
pub use transfer::Claim;
pub use transfer::Withdraw;
