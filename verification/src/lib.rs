//! A token-weighted proposal/voting escrow, verified.
//!
//! Participants stake fungible tokens behind a proposal, either as its
//! proposer or as a voter; an authorized finalizer later drains the staked
//! vault to recipients in a batched, idempotent, overflow-safe pass. Storage
//! records live at addresses derived deterministically from a namespace tag
//! and the identities involved, so at most one stake record ever exists per
//! (staker, proposal) pair.

pub mod errors;
pub mod keys;
pub mod program;
pub mod state;
pub mod token;

pub use errors::CitizenErr;
pub use errors::OpError;
pub use errors::TokenErr;
pub use errors::VoteOutcome;
pub use keys::derive_deposit;
pub use keys::derive_mint_state;
pub use keys::derive_proposal;
pub use keys::program_id;
pub use keys::Identity;
pub use program::finalize_distribution;
pub use program::initialize_mint;
pub use program::mint_to;
pub use program::register_proposal;
pub use program::stake_for_proposal;
pub use program::stake_for_vote;
pub use program::FinalizeCtx;
pub use program::FinalizePair;
pub use program::InitializeMintCtx;
pub use program::MintToCtx;
pub use program::RegisterProposalCtx;
pub use program::StakeProposalCtx;
pub use program::StakeVoteCtx;
pub use state::upsert_deposit;
pub use state::DepositAccount;
pub use state::MintState;
pub use state::ProposalHash;
pub use token::transfer;
pub use token::transfer_to_vault;
pub use token::Mint;
pub use token::TokenAccount;
