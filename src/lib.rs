//! Two-party staked-match escrow: the match state machine, its vault
//! accounting and the fee split, as verified functions over plain values.
//!
//! The execution environment (account storage, signatures, the clock) stays
//! outside: every operation takes the accounts it touches as plain balances
//! and the current time as an argument, and either applies all of its effects
//! or returns an error and leaves every account as it was. A match that
//! reaches a terminal state is closed by the environment, which returns the
//! record's storage deposit to player A.
//!
//! - [`types`]: identities, the match and configuration records, errors.
//! - [`settlement`]: the fee and payout of a settled pot.
//! - [`vault`]: moving balances out of and into a match vault.
//! - [`instructions`]: one transition per operation, each with its exact outcome.
//! - [`laws`]: properties that hold across the transitions.

pub mod instructions;
pub mod laws;
pub mod settlement;
pub mod types;
pub mod vault;

pub use instructions::{
    cancel_active_match, cancel_unjoined, create_match, initialize_config, join_match,
    saturating_add_i64, settle, timeout_refund, CancelActiveMatch, CancelUnjoined, CreateMatch,
    InitializeConfig, JoinMatch, Settle, TimeoutRefund,
};
pub use settlement::{compute_settlement, Settlement, BPS_DENOMINATOR, FEE_BPS};
pub use types::{Address, Config, EscrowError, Match, MatchState, Wallet};
pub use vault::{transfer_from_vault, transfer_lamports};
