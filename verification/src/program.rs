use vstd::prelude::*;

use crate::errors::CitizenErr;
use crate::errors::OpError;
use crate::errors::TokenErr;
use crate::errors::VoteOutcome;
use crate::keys::deposit_seeds;
use crate::keys::derive_deposit;
use crate::keys::derive_mint_state;
use crate::keys::derive_proposal;
use crate::keys::mint_state_seeds;
use crate::keys::pda_addr;
use crate::keys::pda_bump;
use crate::keys::program_id_seq;
use crate::keys::proposal_seeds;
use crate::keys::Identity;
use crate::state::upsert_deposit;
use crate::state::upsert_model;
use crate::state::DepositAccount;
use crate::state::MintState;
use crate::state::ProposalHash;
use crate::token::transfer_to_vault;
use crate::token::Mint;
use crate::token::TokenAccount;

verus! {

/// The accounts that deployment touches: the fresh authority record, the
/// fresh mint, the empty central vault, and the admin who paid for them.
#[derive(Clone, Copy, Debug, PartialEq, Eq)]
pub struct InitializeMintCtx {
    pub mint_state: MintState,
    pub mint: Mint,
    pub vault_token_account: TokenAccount,
    pub admin: Identity,
}

/// The accounts an issuance touches: the mint, the receiving account, and
/// the authority record that signs for the mint.
#[derive(Clone, Copy, Debug, PartialEq, Eq)]
pub struct MintToCtx {
    pub mint: Mint,
    pub recipient: TokenAccount,
    pub mint_state: MintState,
}

/// The outcome of a registration: the new proposal record, the co-signing
/// seed its address was derived from, and the proposer.
#[derive(Clone, Copy, Debug, PartialEq, Eq)]
pub struct RegisterProposalCtx {
    pub proposal: ProposalHash,
    pub proposal_seed: Identity,
    pub proposer: Identity,
}

/// The accounts a proposer-path stake touches. `deposit` is the record the
/// storage substrate resolved at the address derived from (depositor,
/// proposal) — zeroed when no deposit was made before.
#[derive(Clone, Copy, Debug, PartialEq, Eq)]
pub struct StakeProposalCtx {
    pub depositor: Identity,
    pub proposal: ProposalHash,
    pub deposit: DepositAccount,
    pub depositor_token_account: TokenAccount,
    pub vault_token_account: TokenAccount,
}

/// The accounts a voter-path stake touches; as `StakeProposalCtx`, with the
/// staking identity cast as a voter.
#[derive(Clone, Copy, Debug, PartialEq, Eq)]
pub struct StakeVoteCtx {
    pub voter: Identity,
    pub proposal: ProposalHash,
    pub deposit: DepositAccount,
    pub depositor_token_account: TokenAccount,
    pub vault_token_account: TokenAccount,
}

/// The fixed accounts of a finalize call: the proposal being settled, the
/// authority record, the caller (a verified signer), and the vault that pays.
#[derive(Clone, Copy, Debug, PartialEq, Eq)]
pub struct FinalizeCtx {
    pub proposal: ProposalHash,
    pub mint_state: MintState,
    pub authority: Identity,
    pub vault_token_account: TokenAccount,
}

/// One entry of a finalize batch: a stake record, the account its stake is
/// paid to, and whether the record's storage is writable in this call.
#[derive(Clone, Copy, Debug, PartialEq, Eq)]
pub struct FinalizePair {
    pub deposit: DepositAccount,
    pub destination: TokenAccount,
    pub writable: bool,
}

/// Creates the deployment singleton: an authority record naming `admin`,
/// carrying the bump of the record's derived address; a mint with six
/// decimal places and nothing issued; and an empty vault.
pub fn initialize_mint(admin: Identity) -> (r: InitializeMintCtx)
    ensures
        r.mint_state.authority == admin,
        r.mint_state.bump == pda_bump(program_id_seq(), mint_state_seeds()),
        r.mint.supply == 0,
        r.mint.decimals == 6,
        r.vault_token_account.amount == 0,
        r.admin == admin,
{
    let derived = derive_mint_state();
    InitializeMintCtx {
        mint_state: MintState { authority: admin, bump: derived.1 },
        mint: Mint { supply: 0, decimals: 6 },
        vault_token_account: TokenAccount { amount: 0 },
        admin,
    }
}

/// Issues `amount` new tokens to the recipient, signed by the derived
/// authority: supply and recipient balance both grow by `amount`, or — when
/// either would leave the 64-bit range — nothing changes and the ledger's
/// overflow failure is returned. Deliberately not gated on any proposal
/// state.
pub fn mint_to(ctx: &mut MintToCtx, amount: u64) -> (r: Result<(), TokenErr>)
    ensures
        r is Ok <==> (old(ctx).mint.supply + amount <= u64::MAX
            && old(ctx).recipient.amount + amount <= u64::MAX),
        r is Ok ==> final(ctx).mint.supply == old(ctx).mint.supply + amount
            && final(ctx).recipient.amount == old(ctx).recipient.amount + amount,
        final(ctx).mint.decimals == old(ctx).mint.decimals,
        final(ctx).mint_state == old(ctx).mint_state,
        r is Err ==> r == Err::<(), TokenErr>(TokenErr::BalanceOverflow)
            && *final(ctx) == *old(ctx),
{
    if amount > u64::MAX - ctx.mint.supply {
        return Err(TokenErr::BalanceOverflow);
    }
    if amount > u64::MAX - ctx.recipient.amount {
        return Err(TokenErr::BalanceOverflow);
    }
    ctx.mint.supply = ctx.mint.supply + amount;
    ctx.recipient.amount = ctx.recipient.amount + amount;
    Ok(())
}

/// Registers a proposal: the record lives at the address derived from the
/// co-signing `proposal_seed`, names itself and the proposer, stores the
/// content hash unchanged, and starts unfinalized. One seed yields exactly
/// one proposal, so a repeat registration fails structurally (the derived
/// address is already occupied), never through a runtime branch here.
pub fn register_proposal(proposal_seed: Identity, proposer: Identity, data_hash: [u8; 32]) -> (r:
    RegisterProposalCtx)
    ensures
        r.proposal.proposal_id@ == pda_addr(program_id_seq(), proposal_seeds(proposal_seed@)),
        r.proposal.bump == pda_bump(program_id_seq(), proposal_seeds(proposal_seed@)),
        r.proposal.data_hash == data_hash,
        r.proposal.proposer == proposer,
        !r.proposal.finalized,
        r.proposal_seed == proposal_seed,
        r.proposer == proposer,
{
    let derived = derive_proposal(&proposal_seed);
    RegisterProposalCtx {
        proposal: ProposalHash {
            proposal_id: derived.0,
            data_hash,
            proposer,
            finalized: false,
            bump: derived.1,
        },
        proposal_seed,
        proposer,
    }
}


/// One staking call as a function of the values involved: the deposit
/// transfer comes first, the ledger upsert second, and a failure at either
/// stage changes nothing. The expected bump is the canonical one derived
/// from (staker, proposal). On success the record, the staker's account and
/// the vault come back updated, in that order.
pub open spec fn stake_model(
    staker: Identity,
    proposal: ProposalHash,
    deposit: DepositAccount,
    staker_account: TokenAccount,
    vault: TokenAccount,
    amount: u64,
) -> Result<(DepositAccount, TokenAccount, TokenAccount), OpError> {
    let expected_bump = pda_bump(program_id_seq(), deposit_seeds(staker@, proposal.proposal_id@));
    if amount > staker_account.amount {
        Err(OpError::Token(TokenErr::InsufficientFunds))
    } else if vault.amount + amount > u64::MAX {
        Err(OpError::Token(TokenErr::BalanceOverflow))
    } else {
        match upsert_model(deposit, staker, proposal.proposal_id, expected_bump, amount) {
            Ok(d2) => Ok(
                (
                    d2,
                    TokenAccount { amount: (staker_account.amount - amount) as u64 },
                    TokenAccount { amount: (vault.amount + amount) as u64 },
                ),
            ),
            Err(e) => Err(OpError::Citizen(e)),
        }
    }
}

/// Proposer-path stake: any identity may stake behind any proposal. Pays
/// `amount` into the vault, then upsert-accumulates the stake record under
/// the bump derived from (depositor, proposal); an error at either stage
/// leaves every account exactly as it was.
pub fn stake_for_proposal(ctx: &mut StakeProposalCtx, amount: u64) -> (r: Result<(), OpError>)
    ensures
        stake_model(
            old(ctx).depositor,
            old(ctx).proposal,
            old(ctx).deposit,
            old(ctx).depositor_token_account,
            old(ctx).vault_token_account,
            amount,
        ) matches Ok(t) ==> (r is Ok && final(ctx).deposit == t.0
            && final(ctx).depositor_token_account == t.1 && final(ctx).vault_token_account == t.2
            && final(ctx).depositor == old(ctx).depositor && final(ctx).proposal == old(
            ctx,
        ).proposal),
        stake_model(
            old(ctx).depositor,
            old(ctx).proposal,
            old(ctx).deposit,
            old(ctx).depositor_token_account,
            old(ctx).vault_token_account,
            amount,
        ) matches Err(e) ==> (r == Err::<(), OpError>(e) && *final(ctx) == *old(ctx)),
{
    let derived = derive_deposit(&ctx.depositor, &ctx.proposal.proposal_id);
    let expected_bump = derived.1;
    let mut from_acc = ctx.depositor_token_account;
    let mut vault_acc = ctx.vault_token_account;
    match transfer_to_vault(&mut from_acc, &mut vault_acc, amount) {
        Err(e) => {
            return Err(OpError::Token(e));
        },
        Ok(()) => {},
    }
    let mut deposit = ctx.deposit;
    match upsert_deposit(
        &mut deposit,
        ctx.depositor,
        ctx.proposal.proposal_id,
        expected_bump,
        amount,
    ) {
        Err(e) => {
            return Err(OpError::Citizen(e));
        },
        Ok(()) => {},
    }
    ctx.depositor_token_account = from_acc;
    ctx.vault_token_account = vault_acc;
    ctx.deposit = deposit;
    Ok(())
}

/// Voter-path stake: as the proposer path, except that the proposer may not
/// vote on their own proposal — that fails with `NotAuthorized` before any
/// transfer is attempted.
pub fn stake_for_vote(ctx: &mut StakeVoteCtx, amount: u64) -> (r: Result<(), OpError>)
    ensures
        old(ctx).voter@ == old(ctx).proposal.proposer@ ==> (r == Err::<(), OpError>(
            OpError::Citizen(CitizenErr::NotAuthorized),
        ) && *final(ctx) == *old(ctx)),
        old(ctx).voter@ != old(ctx).proposal.proposer@ ==> (stake_model(
            old(ctx).voter,
            old(ctx).proposal,
            old(ctx).deposit,
            old(ctx).depositor_token_account,
            old(ctx).vault_token_account,
            amount,
        ) matches Ok(t) ==> (r is Ok && final(ctx).deposit == t.0
            && final(ctx).depositor_token_account == t.1 && final(ctx).vault_token_account == t.2
            && final(ctx).voter == old(ctx).voter && final(ctx).proposal == old(ctx).proposal)),
        old(ctx).voter@ != old(ctx).proposal.proposer@ ==> (stake_model(
            old(ctx).voter,
            old(ctx).proposal,
            old(ctx).deposit,
            old(ctx).depositor_token_account,
            old(ctx).vault_token_account,
            amount,
        ) matches Err(e) ==> (r == Err::<(), OpError>(e) && *final(ctx) == *old(ctx))),
{
    if ctx.voter.key_eq(&ctx.proposal.proposer) {
        return Err(OpError::Citizen(CitizenErr::NotAuthorized));
    }
    let derived = derive_deposit(&ctx.voter, &ctx.proposal.proposal_id);
    let expected_bump = derived.1;
    let mut from_acc = ctx.depositor_token_account;
    let mut vault_acc = ctx.vault_token_account;
    match transfer_to_vault(&mut from_acc, &mut vault_acc, amount) {
        Err(e) => {
            return Err(OpError::Token(e));
        },
        Ok(()) => {},
    }
    let mut deposit = ctx.deposit;
    match upsert_deposit(&mut deposit, ctx.voter, ctx.proposal.proposal_id, expected_bump, amount) {
        Err(e) => {
            return Err(OpError::Citizen(e));
        },
        Ok(()) => {},
    }
    ctx.depositor_token_account = from_acc;
    ctx.vault_token_account = vault_acc;
    ctx.deposit = deposit;
    Ok(())
}


/// Two batch entries present the same stored stake record when they agree on
/// the staker and the proposal — the pair a record's derived address is
/// keyed by. A batch is untrusted input and may list one record several
/// times; all such entries alias a single record in storage.
pub open spec fn same_record(a: DepositAccount, b: DepositAccount) -> bool {
    a.user@ == b.user@ && a.proposal@ == b.proposal@
}

/// Whether an earlier pair of the batch presents the same record as pair `i`
/// and was unclaimed on entry. The loop then pays that record at its first
/// unclaimed occurrence and sets its claimed flag, so pair `i` reads the
/// record as claimed.
pub open spec fn paid_earlier(batch: Seq<FinalizePair>, i: int) -> bool {
    exists|j: int|
        0 <= j < i && !batch[j].deposit.claimed && same_record(
            batch[j].deposit,
            batch[i].deposit,
        )
}

/// Whether the loop skips pair `i` without a transfer: its record was
/// claimed on entry, or the loop claimed it at an earlier pair of the batch.
pub open spec fn skipped(batch: Seq<FinalizePair>, i: int) -> bool {
    batch[i].deposit.claimed || paid_earlier(batch, i)
}

/// What pair `i` pays out: nothing when it is skipped, else its record's
/// full amount.
pub open spec fn payout_at(batch: Seq<FinalizePair>, i: int) -> int {
    if skipped(batch, i) {
        0
    } else {
        batch[i].deposit.amount as int
    }
}

/// The total a batch pays out: the sum of each pair's payout, from `i` on.
pub open spec fn total_payout_from(batch: Seq<FinalizePair>, i: int) -> int
    decreases batch.len() - i,
{
    if i < 0 || i >= batch.len() {
        0
    } else {
        payout_at(batch, i) + total_payout_from(batch, i + 1)
    }
}

/// The total a batch pays out.
pub open spec fn total_payout(batch: Seq<FinalizePair>) -> int {
    total_payout_from(batch, 0)
}

/// The distribution loop's outcome on the pairs from `i` on, with `vault_bal`
/// left in the vault: the vault balance after the loop, or the first failure
/// in batch order — a non-writable record, a payout the vault cannot cover,
/// or a destination balance leaving the 64-bit range.
pub open spec fn batch_outcome(batch: Seq<FinalizePair>, i: int, vault_bal: int) -> Result<
    int,
    OpError,
>
    decreases batch.len() - i,
{
    if i < 0 || i >= batch.len() {
        Ok(vault_bal)
    } else {
        let p = batch[i];
        if !p.writable {
            Err(OpError::Citizen(CitizenErr::NotAuthorized))
        } else if skipped(batch, i) {
            batch_outcome(batch, i + 1, vault_bal)
        } else if p.deposit.amount > vault_bal {
            Err(OpError::Token(TokenErr::InsufficientFunds))
        } else if p.destination.amount + p.deposit.amount > u64::MAX {
            Err(OpError::Token(TokenErr::BalanceOverflow))
        } else {
            batch_outcome(batch, i + 1, vault_bal - p.deposit.amount)
        }
    }
}

/// Pair `i` as the loop leaves it: untouched when its record was claimed on
/// entry; only the claimed flag set when the loop paid the same record at an
/// earlier pair; else the record claimed and the destination credited with
/// the full amount.
pub open spec fn settled_pair_at(batch: Seq<FinalizePair>, i: int) -> FinalizePair {
    let p = batch[i];
    if p.deposit.claimed {
        p
    } else if paid_earlier(batch, i) {
        FinalizePair {
            deposit: DepositAccount { claimed: true, ..p.deposit },
            destination: p.destination,
            writable: p.writable,
        }
    } else {
        FinalizePair {
            deposit: DepositAccount { claimed: true, ..p.deposit },
            destination: TokenAccount {
                amount: (p.destination.amount + p.deposit.amount) as u64,
            },
            writable: p.writable,
        }
    }
}

/// The whole batch as the loop leaves it.
pub open spec fn settled_batch(batch: Seq<FinalizePair>) -> Seq<FinalizePair> {
    Seq::new(batch.len(), |i: int| settled_pair_at(batch, i))
}

/// One finalize call as a function of the values involved. Only the recorded
/// authority may call; a finalized proposal refuses a second settlement; and
/// the batch is all-or-nothing: the first failing pair discards every
/// earlier pair's effect. On success every unclaimed record in the batch is
/// paid exactly once and marked claimed — at its first unclaimed occurrence,
/// should the batch list the same record more than once — the vault keeps
/// what the loop left, and the proposal is terminally finalized.
pub open spec fn finalize_model(ctx: FinalizeCtx, batch: Seq<FinalizePair>) -> Result<
    (FinalizeCtx, Seq<FinalizePair>),
    OpError,
> {
    if ctx.authority@ != ctx.mint_state.authority@ {
        Err(OpError::Citizen(CitizenErr::NotAuthorized))
    } else if ctx.proposal.finalized {
        Err(OpError::Citizen(CitizenErr::AlreadyFinalized))
    } else {
        match batch_outcome(batch, 0, ctx.vault_token_account.amount as int) {
            Ok(bal) => Ok(
                (
                    FinalizeCtx {
                        proposal: ProposalHash { finalized: true, ..ctx.proposal },
                        mint_state: ctx.mint_state,
                        authority: ctx.authority,
                        vault_token_account: TokenAccount { amount: bal as u64 },
                    },
                    settled_batch(batch),
                ),
            ),
            Err(e) => Err(e),
        }
    }
}

/// Batched distribution. The `outcome` parameter is accepted but does not
/// yet steer distribution — both variants settle the same way.
pub fn finalize_distribution(
    ctx: &mut FinalizeCtx,
    batch: &mut Vec<FinalizePair>,
    outcome: VoteOutcome,
) -> (r: Result<(), OpError>)
    ensures
        finalize_model(*old(ctx), old(batch)@) matches Ok(t) ==> (r is Ok && *final(ctx) == t.0
            && final(batch)@ == t.1),
        finalize_model(*old(ctx), old(batch)@) matches Err(e) ==> (r == Err::<(), OpError>(e)
            && *final(ctx) == *old(ctx) && final(batch)@ == old(batch)@),
{
    if !ctx.authority.key_eq(&ctx.mint_state.authority) {
        return Err(OpError::Citizen(CitizenErr::NotAuthorized));
    }
    if ctx.proposal.finalized {
        return Err(OpError::Citizen(CitizenErr::AlreadyFinalized));
    }
    let ghost vault0 = ctx.vault_token_account.amount as int;
    let mut vault_bal: u64 = ctx.vault_token_account.amount;
    let mut out: Vec<FinalizePair> = Vec::new();
    let n = batch.len();
    let mut i: usize = 0;
    while i < n
        invariant
            0 <= i <= n,
            *ctx == *old(ctx),
            batch@ == old(batch)@,
            n == batch@.len(),
            vault0 == old(ctx).vault_token_account.amount as int,
            old(ctx).authority@ == old(ctx).mint_state.authority@,
            !old(ctx).proposal.finalized,
            out@.len() == i,
            forall|j: int| 0 <= j < i ==> out@[j] == settled_pair_at(batch@, j),
            batch_outcome(batch@, 0, vault0) == batch_outcome(batch@, i as int, vault_bal as int),
        decreases n - i,
    {
        let p = batch[i];
        if !p.writable {
            proof {
                assert(batch_outcome(batch@, i as int, vault_bal as int) == Err::<int, OpError>(
                    OpError::Citizen(CitizenErr::NotAuthorized),
                ));
            }
            return Err(OpError::Citizen(CitizenErr::NotAuthorized));
        }
        // An earlier unclaimed pair of this batch may present this very
        // record; the loop then claimed it there, and this pair reads it as
        // claimed.
        let mut dup: bool = false;
        let mut j: usize = 0;
        while j < i
            invariant
                0 <= j <= i,
                i < n,
                n == batch@.len(),
                p == batch@[i as int],
                dup <==> exists|k: int|
                    0 <= k < j && !batch@[k].deposit.claimed && same_record(
                        batch@[k].deposit,
                        p.deposit,
                    ),
            decreases i - j,
        {
            let q = batch[j];
            if !q.deposit.claimed && q.deposit.user.key_eq(&p.deposit.user)
                && q.deposit.proposal.key_eq(&p.deposit.proposal) {
                dup = true;
            }
            j += 1;
        }
        proof {
            assert(dup <==> paid_earlier(batch@, i as int));
        }
        if p.deposit.claimed {
            out.push(p);
        } else if dup {
            out.push(
                FinalizePair {
                    deposit: DepositAccount { claimed: true, ..p.deposit },
                    destination: p.destination,
                    writable: p.writable,
                },
            );
        } else {
            if p.deposit.amount > vault_bal {
                proof {
                    assert(batch_outcome(batch@, i as int, vault_bal as int) == Err::<
                        int,
                        OpError,
                    >(OpError::Token(TokenErr::InsufficientFunds)));
                }
                return Err(OpError::Token(TokenErr::InsufficientFunds));
            }
            if p.deposit.amount > u64::MAX - p.destination.amount {
                proof {
                    assert(batch_outcome(batch@, i as int, vault_bal as int) == Err::<
                        int,
                        OpError,
                    >(OpError::Token(TokenErr::BalanceOverflow)));
                }
                return Err(OpError::Token(TokenErr::BalanceOverflow));
            }
            vault_bal = vault_bal - p.deposit.amount;
            out.push(
                FinalizePair {
                    deposit: DepositAccount { claimed: true, ..p.deposit },
                    destination: TokenAccount { amount: p.destination.amount + p.deposit.amount },
                    writable: p.writable,
                },
            );
        }
        i += 1;
    }
    let _ = outcome;
    proof {
        assert(batch_outcome(batch@, n as int, vault_bal as int) == Ok::<int, OpError>(
            vault_bal as int,
        ));
    }
    ctx.vault_token_account.amount = vault_bal;
    ctx.proposal.finalized = true;
    *batch = out;
    proof {
        assert(final(batch)@ =~= settled_batch(old(batch)@));
    }
    Ok(())
}


/// A distribution loop that completes drains the vault by exactly the
/// batch's total payout — each unclaimed record's amount once, claimed
/// records nothing — and never overdraws it.
pub proof fn lemma_batch_pays_total(batch: Seq<FinalizePair>, i: int, v: int)
    requires
        batch_outcome(batch, i, v) is Ok,
        v >= 0,
    ensures
        batch_outcome(batch, i, v) == Ok::<int, OpError>(v - total_payout_from(batch, i)),
        0 <= total_payout_from(batch, i) <= v,
    decreases batch.len() - i,
{
    if 0 <= i < batch.len() {
        let p = batch[i];
        if skipped(batch, i) {
            lemma_batch_pays_total(batch, i + 1, v);
        } else {
            lemma_batch_pays_total(batch, i + 1, v - p.deposit.amount);
        }
    }
}

/// At-most-once payout per record: among batch pairs presenting the same
/// stake record, only the first unclaimed occurrence pays; every later
/// occurrence of that record contributes nothing to the total.
pub proof fn lemma_record_paid_at_most_once(batch: Seq<FinalizePair>, i: int, j: int)
    requires
        0 <= i < j < batch.len(),
        !batch[i].deposit.claimed,
        same_record(batch[i].deposit, batch[j].deposit),
    ensures
        payout_at(batch, j) == 0,
{
}

/// After a successful distribution, re-running the loop on the settled batch
/// moves nothing: every record is claimed, so every pair is skipped and any
/// starting balance comes through untouched.
pub proof fn lemma_settled_pays_nothing(batch: Seq<FinalizePair>, i: int, v: int, w: int)
    requires
        batch_outcome(batch, i, v) is Ok,
    ensures
        batch_outcome(settled_batch(batch), i, w) == Ok::<int, OpError>(w),
    decreases batch.len() - i,
{
    if 0 <= i < batch.len() {
        let p = batch[i];
        assert(settled_batch(batch)[i].deposit.claimed);
        if skipped(batch, i) {
            lemma_settled_pays_nothing(batch, i + 1, v, w);
        } else {
            lemma_settled_pays_nothing(batch, i + 1, v - p.deposit.amount, w);
        }
    }
}

/// Finalize is idempotent and pays at most once. A successful finalize (a)
/// leaves the proposal terminally finalized, so every later finalize call on
/// that state — whatever batch it carries — fails with `AlreadyFinalized`
/// and changes nothing; (b) leaves a batch whose records are all claimed, so
/// replaying its loop transfers zero tokens; and (c) has drained the vault
/// by exactly the batch's total payout: each record's amount once.
pub proof fn lemma_finalize_idempotent(
    ctx: FinalizeCtx,
    batch: Seq<FinalizePair>,
    ctx2: FinalizeCtx,
    batch2: Seq<FinalizePair>,
)
    requires
        finalize_model(ctx, batch) matches Ok(t) && t.0 == ctx2 && t.1 == batch2,
    ensures
        ctx2.proposal.finalized,
        forall|b: Seq<FinalizePair>|
            finalize_model(ctx2, b) == Err::<(FinalizeCtx, Seq<FinalizePair>), OpError>(
                OpError::Citizen(CitizenErr::AlreadyFinalized),
            ),
        forall|w: int| batch_outcome(batch2, 0, w) == Ok::<int, OpError>(w),
        ctx.vault_token_account.amount - ctx2.vault_token_account.amount == total_payout(batch),
{
    let v0 = ctx.vault_token_account.amount as int;
    lemma_batch_pays_total(batch, 0, v0);
    assert forall|w: int| batch_outcome(batch2, 0, w) == Ok::<int, OpError>(w) by {
        lemma_settled_pays_nothing(batch, 0, v0, w);
    }
}

} // verus!
