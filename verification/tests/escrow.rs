use citizenhub::derive_deposit;
use citizenhub::finalize_distribution;
use citizenhub::initialize_mint;
use citizenhub::mint_to;
use citizenhub::register_proposal;
use citizenhub::stake_for_proposal;
use citizenhub::stake_for_vote;
use citizenhub::upsert_deposit;
use citizenhub::CitizenErr;
use citizenhub::DepositAccount;
use citizenhub::FinalizeCtx;
use citizenhub::FinalizePair;
use citizenhub::Identity;
use citizenhub::MintToCtx;
use citizenhub::OpError;
use citizenhub::StakeProposalCtx;
use citizenhub::StakeVoteCtx;
use citizenhub::TokenAccount;
use citizenhub::TokenErr;
use citizenhub::VoteOutcome;

fn id(b: u8) -> Identity {
    Identity { bytes: [b; 32] }
}

fn fresh_deposit() -> DepositAccount {
    DepositAccount {
        user: id(0),
        proposal: id(0),
        amount: 0,
        claimed: false,
        bump: 0,
    }
}

#[test]
fn initialize_mint_populates_the_singleton() {
    let admin = id(1);
    let ctx = initialize_mint(admin);
    assert_eq!(ctx.mint_state.authority, admin);
    assert_eq!(ctx.mint.supply, 0);
    assert_eq!(ctx.mint.decimals, 6);
    assert_eq!(ctx.vault_token_account.amount, 0);
    assert_eq!(ctx.admin, admin);
    let derived = citizenhub::derive_mint_state();
    assert_eq!(ctx.mint_state.bump, derived.1);
}

#[test]
fn mint_to_issues_and_checks_overflow() {
    let init = initialize_mint(id(1));
    let mut ctx = MintToCtx {
        mint: init.mint,
        recipient: TokenAccount { amount: 10 },
        mint_state: init.mint_state,
    };
    assert!(mint_to(&mut ctx, 990).is_ok());
    assert_eq!(ctx.mint.supply, 990);
    assert_eq!(ctx.recipient.amount, 1000);

    let before = ctx;
    let r = mint_to(&mut ctx, u64::MAX);
    assert_eq!(r, Err(TokenErr::BalanceOverflow));
    assert_eq!(ctx, before);
}

#[test]
fn register_proposal_binds_seed_hash_and_proposer() {
    let seed = id(2);
    let proposer = id(3);
    let reg = register_proposal(seed, proposer, [7u8; 32]);
    assert_eq!(reg.proposal.proposer, proposer);
    assert_eq!(reg.proposal.data_hash, [7u8; 32]);
    assert!(!reg.proposal.finalized);
    assert_eq!(reg.proposal_seed, seed);
    let derived = citizenhub::derive_proposal(&seed);
    assert_eq!(reg.proposal.proposal_id, derived.0);
    assert_eq!(reg.proposal.bump, derived.1);
}

#[test]
fn stakes_accumulate_to_their_sum() {
    let reg = register_proposal(id(2), id(3), [7u8; 32]);
    let mut ctx = StakeProposalCtx {
        depositor: id(5),
        proposal: reg.proposal,
        deposit: fresh_deposit(),
        depositor_token_account: TokenAccount { amount: 1000 },
        vault_token_account: TokenAccount { amount: 0 },
    };
    assert!(stake_for_proposal(&mut ctx, 100).is_ok());
    assert!(stake_for_proposal(&mut ctx, 50).is_ok());
    assert_eq!(ctx.deposit.amount, 150);
    assert_eq!(ctx.deposit.user, id(5));
    assert_eq!(ctx.deposit.proposal, reg.proposal.proposal_id);
    assert!(!ctx.deposit.claimed);
    assert_eq!(ctx.depositor_token_account.amount, 850);
    assert_eq!(ctx.vault_token_account.amount, 150);
    let derived = derive_deposit(&id(5), &reg.proposal.proposal_id);
    assert_eq!(ctx.deposit.bump, derived.1);
}

#[test]
fn stake_overflow_fails_and_changes_nothing() {
    let reg = register_proposal(id(2), id(3), [7u8; 32]);
    let derived = derive_deposit(&id(5), &reg.proposal.proposal_id);
    let mut ctx = StakeProposalCtx {
        depositor: id(5),
        proposal: reg.proposal,
        deposit: DepositAccount {
            user: id(5),
            proposal: reg.proposal.proposal_id,
            amount: u64::MAX,
            claimed: false,
            bump: derived.1,
        },
        depositor_token_account: TokenAccount { amount: 1000 },
        vault_token_account: TokenAccount { amount: 0 },
    };
    let before = ctx;
    let r = stake_for_proposal(&mut ctx, 1);
    assert_eq!(r, Err(OpError::Citizen(CitizenErr::NumericalOverflow)));
    assert_eq!(ctx, before);
}

#[test]
fn stake_with_wrong_bump_fails_and_changes_nothing() {
    let reg = register_proposal(id(2), id(3), [7u8; 32]);
    let derived = derive_deposit(&id(5), &reg.proposal.proposal_id);
    let wrong_bump = derived.1.wrapping_add(1);
    let mut ctx = StakeProposalCtx {
        depositor: id(5),
        proposal: reg.proposal,
        deposit: DepositAccount {
            user: id(5),
            proposal: reg.proposal.proposal_id,
            amount: 40,
            claimed: false,
            bump: wrong_bump,
        },
        depositor_token_account: TokenAccount { amount: 1000 },
        vault_token_account: TokenAccount { amount: 0 },
    };
    let before = ctx;
    let r = stake_for_proposal(&mut ctx, 10);
    assert_eq!(r, Err(OpError::Citizen(CitizenErr::NotAuthorized)));
    assert_eq!(ctx, before);
}

#[test]
fn stake_with_insufficient_funds_fails_and_changes_nothing() {
    let reg = register_proposal(id(2), id(3), [7u8; 32]);
    let mut ctx = StakeProposalCtx {
        depositor: id(5),
        proposal: reg.proposal,
        deposit: fresh_deposit(),
        depositor_token_account: TokenAccount { amount: 9 },
        vault_token_account: TokenAccount { amount: 0 },
    };
    let before = ctx;
    let r = stake_for_proposal(&mut ctx, 10);
    assert_eq!(r, Err(OpError::Token(TokenErr::InsufficientFunds)));
    assert_eq!(ctx, before);
}

#[test]
fn voter_cannot_vote_on_their_own_proposal() {
    let proposer = id(3);
    let reg = register_proposal(id(2), proposer, [7u8; 32]);
    let mut ctx = StakeVoteCtx {
        voter: proposer,
        proposal: reg.proposal,
        deposit: fresh_deposit(),
        depositor_token_account: TokenAccount { amount: 1000 },
        vault_token_account: TokenAccount { amount: 0 },
    };
    let before = ctx;
    let r = stake_for_vote(&mut ctx, 10);
    assert_eq!(r, Err(OpError::Citizen(CitizenErr::NotAuthorized)));
    assert_eq!(ctx, before);
}

#[test]
fn finalize_requires_the_recorded_authority() {
    let init = initialize_mint(id(1));
    let reg = register_proposal(id(2), id(3), [7u8; 32]);
    let mut ctx = FinalizeCtx {
        proposal: reg.proposal,
        mint_state: init.mint_state,
        authority: id(9),
        vault_token_account: TokenAccount { amount: 100 },
    };
    let mut batch: Vec<FinalizePair> = Vec::new();
    let before = ctx;
    let r = finalize_distribution(&mut ctx, &mut batch, VoteOutcome::Approved);
    assert_eq!(r, Err(OpError::Citizen(CitizenErr::NotAuthorized)));
    assert_eq!(ctx, before);
}

#[test]
fn finalize_rejects_a_non_writable_record() {
    let init = initialize_mint(id(1));
    let reg = register_proposal(id(2), id(3), [7u8; 32]);
    let mut ctx = FinalizeCtx {
        proposal: reg.proposal,
        mint_state: init.mint_state,
        authority: id(1),
        vault_token_account: TokenAccount { amount: 100 },
    };
    let mut batch = vec![FinalizePair {
        deposit: DepositAccount {
            user: id(5),
            proposal: reg.proposal.proposal_id,
            amount: 10,
            claimed: false,
            bump: 0,
        },
        destination: TokenAccount { amount: 0 },
        writable: false,
    }];
    let before_batch = batch.clone();
    let before = ctx;
    let r = finalize_distribution(&mut ctx, &mut batch, VoteOutcome::Approved);
    assert_eq!(r, Err(OpError::Citizen(CitizenErr::NotAuthorized)));
    assert_eq!(ctx, before);
    assert_eq!(batch, before_batch);
}

#[test]
fn finalize_skips_claimed_records() {
    let init = initialize_mint(id(1));
    let reg = register_proposal(id(2), id(3), [7u8; 32]);
    let mut ctx = FinalizeCtx {
        proposal: reg.proposal,
        mint_state: init.mint_state,
        authority: id(1),
        vault_token_account: TokenAccount { amount: 100 },
    };
    let claimed = FinalizePair {
        deposit: DepositAccount {
            user: id(5),
            proposal: reg.proposal.proposal_id,
            amount: 60,
            claimed: true,
            bump: 0,
        },
        destination: TokenAccount { amount: 11 },
        writable: true,
    };
    let open = FinalizePair {
        deposit: DepositAccount {
            user: id(6),
            proposal: reg.proposal.proposal_id,
            amount: 40,
            claimed: false,
            bump: 0,
        },
        destination: TokenAccount { amount: 0 },
        writable: true,
    };
    let mut batch = vec![claimed, open];
    let r = finalize_distribution(&mut ctx, &mut batch, VoteOutcome::Rejected);
    assert!(r.is_ok());
    // The claimed pair moved nothing; the open pair was paid in full.
    assert_eq!(batch[0], claimed);
    assert_eq!(batch[1].destination.amount, 40);
    assert!(batch[1].deposit.claimed);
    assert_eq!(ctx.vault_token_account.amount, 60);
    assert!(ctx.proposal.finalized);
}

#[test]
fn finalize_aborts_the_whole_batch_on_one_failing_transfer() {
    let init = initialize_mint(id(1));
    let reg = register_proposal(id(2), id(3), [7u8; 32]);
    let mut ctx = FinalizeCtx {
        proposal: reg.proposal,
        mint_state: init.mint_state,
        authority: id(1),
        vault_token_account: TokenAccount { amount: 50 },
    };
    let first = FinalizePair {
        deposit: DepositAccount {
            user: id(5),
            proposal: reg.proposal.proposal_id,
            amount: 30,
            claimed: false,
            bump: 0,
        },
        destination: TokenAccount { amount: 0 },
        writable: true,
    };
    // The second pair asks for more than the vault still holds.
    let second = FinalizePair {
        deposit: DepositAccount {
            user: id(6),
            proposal: reg.proposal.proposal_id,
            amount: 30,
            claimed: false,
            bump: 0,
        },
        destination: TokenAccount { amount: 0 },
        writable: true,
    };
    let mut batch = vec![first, second];
    let before_batch = batch.clone();
    let before = ctx;
    let r = finalize_distribution(&mut ctx, &mut batch, VoteOutcome::Approved);
    assert_eq!(r, Err(OpError::Token(TokenErr::InsufficientFunds)));
    // All-or-nothing: the first pair's payout was discarded too.
    assert_eq!(ctx, before);
    assert_eq!(batch, before_batch);
    assert!(!batch[0].deposit.claimed);
}

#[test]
fn full_escrow_scenario_pays_each_stake_exactly_once() {
    let admin = id(1);
    let init = initialize_mint(admin);

    let proposer = id(3);
    let reg = register_proposal(id(2), proposer, [7u8; 32]);

    // Voter stakes 100.
    let voter = id(4);
    let mut vote_ctx = StakeVoteCtx {
        voter,
        proposal: reg.proposal,
        deposit: fresh_deposit(),
        depositor_token_account: TokenAccount { amount: 1000 },
        vault_token_account: init.vault_token_account,
    };
    assert!(stake_for_vote(&mut vote_ctx, 100).is_ok());
    assert_eq!(vote_ctx.deposit.amount, 100);
    assert!(!vote_ctx.deposit.claimed);
    assert_eq!(vote_ctx.vault_token_account.amount, 100);

    // Proposer stakes 50 through the proposer path.
    let mut prop_ctx = StakeProposalCtx {
        depositor: proposer,
        proposal: reg.proposal,
        deposit: fresh_deposit(),
        depositor_token_account: TokenAccount { amount: 1000 },
        vault_token_account: vote_ctx.vault_token_account,
    };
    assert!(stake_for_proposal(&mut prop_ctx, 50).is_ok());
    assert_eq!(prop_ctx.deposit.amount, 50);
    assert_eq!(prop_ctx.vault_token_account.amount, 150);

    // The authority settles both records.
    let mut fin_ctx = FinalizeCtx {
        proposal: reg.proposal,
        mint_state: init.mint_state,
        authority: admin,
        vault_token_account: prop_ctx.vault_token_account,
    };
    let mut batch = vec![
        FinalizePair {
            deposit: vote_ctx.deposit,
            destination: vote_ctx.depositor_token_account,
            writable: true,
        },
        FinalizePair {
            deposit: prop_ctx.deposit,
            destination: prop_ctx.depositor_token_account,
            writable: true,
        },
    ];
    let r = finalize_distribution(&mut fin_ctx, &mut batch, VoteOutcome::Approved);
    assert!(r.is_ok());
    assert_eq!(batch[0].destination.amount, 1000);
    assert_eq!(batch[1].destination.amount, 1000);
    assert!(batch[0].deposit.claimed);
    assert!(batch[1].deposit.claimed);
    assert_eq!(fin_ctx.vault_token_account.amount, 0);
    assert!(fin_ctx.proposal.finalized);

    // A second identical call moves nothing and reports the terminal flag.
    let before = fin_ctx;
    let before_batch = batch.clone();
    let r = finalize_distribution(&mut fin_ctx, &mut batch, VoteOutcome::Approved);
    assert_eq!(r, Err(OpError::Citizen(CitizenErr::AlreadyFinalized)));
    assert_eq!(fin_ctx, before);
    assert_eq!(batch, before_batch);
}

#[test]
fn upsert_populates_a_fresh_record_once() {
    let mut d = fresh_deposit();
    assert!(upsert_deposit(&mut d, id(5), id(6), 42, 10).is_ok());
    assert_eq!(d.user, id(5));
    assert_eq!(d.proposal, id(6));
    assert_eq!(d.bump, 42);
    assert_eq!(d.amount, 10);

    // A later deposit must present the recorded bump.
    let r = upsert_deposit(&mut d, id(5), id(6), 43, 5);
    assert_eq!(r, Err(CitizenErr::NotAuthorized));
    assert_eq!(d.amount, 10);
    assert!(upsert_deposit(&mut d, id(5), id(6), 42, 5).is_ok());
    assert_eq!(d.amount, 15);
}

#[test]
fn transfer_moves_exactly_the_amount_or_nothing() {
    let mut from = TokenAccount { amount: 100 };
    let mut to = TokenAccount { amount: 7 };
    assert!(citizenhub::transfer(&mut from, &mut to, 40).is_ok());
    assert_eq!(from.amount, 60);
    assert_eq!(to.amount, 47);

    let r = citizenhub::transfer(&mut from, &mut to, 61);
    assert_eq!(r, Err(TokenErr::InsufficientFunds));
    assert_eq!(from.amount, 60);
    assert_eq!(to.amount, 47);

    let mut rich = TokenAccount { amount: u64::MAX };
    let r = citizenhub::transfer(&mut from, &mut rich, 1);
    assert_eq!(r, Err(TokenErr::BalanceOverflow));
    assert_eq!(from.amount, 60);
    assert_eq!(rich.amount, u64::MAX);
}

#[test]
fn finalize_with_an_empty_batch_still_sets_the_flag() {
    let init = initialize_mint(id(1));
    let reg = register_proposal(id(2), id(3), [7u8; 32]);
    let mut ctx = FinalizeCtx {
        proposal: reg.proposal,
        mint_state: init.mint_state,
        authority: id(1),
        vault_token_account: TokenAccount { amount: 25 },
    };
    let mut batch: Vec<FinalizePair> = Vec::new();
    let r = finalize_distribution(&mut ctx, &mut batch, VoteOutcome::Approved);
    assert!(r.is_ok());
    assert!(ctx.proposal.finalized);
    assert_eq!(ctx.vault_token_account.amount, 25);
    assert!(batch.is_empty());
}

#[test]
fn finalize_pays_a_record_listed_twice_only_once() {
    let init = initialize_mint(id(1));
    let reg = register_proposal(id(2), id(3), [7u8; 32]);
    let mut ctx = FinalizeCtx {
        proposal: reg.proposal,
        mint_state: init.mint_state,
        authority: id(1),
        vault_token_account: TokenAccount { amount: 100 },
    };
    // The same (staker, proposal) record appears twice, both copies
    // unclaimed — as one stored record read twice would on entry.
    let record = DepositAccount {
        user: id(5),
        proposal: reg.proposal.proposal_id,
        amount: 60,
        claimed: false,
        bump: 0,
    };
    let mut batch = vec![
        FinalizePair {
            deposit: record,
            destination: TokenAccount { amount: 0 },
            writable: true,
        },
        FinalizePair {
            deposit: record,
            destination: TokenAccount { amount: 0 },
            writable: true,
        },
    ];
    let r = finalize_distribution(&mut ctx, &mut batch, VoteOutcome::Approved);
    assert!(r.is_ok());
    // Paid once, at the first occurrence; the duplicate is read as claimed.
    assert_eq!(ctx.vault_token_account.amount, 40);
    assert_eq!(batch[0].destination.amount, 60);
    assert!(batch[0].deposit.claimed);
    assert_eq!(batch[1].destination.amount, 0);
    assert!(batch[1].deposit.claimed);
    assert!(ctx.proposal.finalized);
}
