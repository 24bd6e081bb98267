use vstd::prelude::*;

use crate::errors::CitizenErr;
use crate::keys::Identity;

verus! {

/// The singleton mint authority record: the one identity allowed to drive
/// finalization, and the bump its address was derived with.
#[derive(Clone, Copy, Debug, PartialEq, Eq)]
pub struct MintState {
    pub authority: Identity,
    pub bump: u8,
}

/// A proposal record: its own derived address, the registered content hash,
/// the proposer, the terminal finalized flag, and its derivation bump.
#[derive(Clone, Copy, Debug, PartialEq, Eq)]
pub struct ProposalHash {
    pub proposal_id: Identity,
    pub data_hash: [u8; 32],
    pub proposer: Identity,
    pub finalized: bool,
    pub bump: u8,
}

/// A stake record: the per-(staker, proposal) accumulator. `amount == 0`
/// doubles as the freshness sentinel: identity fields and bump are populated
/// by the first deposit and locked from then on.
#[derive(Clone, Copy, Debug, PartialEq, Eq)]
pub struct DepositAccount {
    pub user: Identity,
    pub proposal: Identity,
    pub amount: u64,
    pub claimed: bool,
    pub bump: u8,
}

impl DepositAccount {
    /// A record no deposit has reached yet.
    pub open spec fn is_fresh(self) -> bool {
        self.amount == 0
    }
}

/// What one upsert-accumulate does, as a function on record values: a fresh
/// record is populated, a known record must present the bump recorded at its
/// creation, and the amount grows by exactly the deposit or the call fails.
pub open spec fn upsert_model(
    d: DepositAccount,
    user: Identity,
    proposal: Identity,
    expected_bump: u8,
    amount: u64,
) -> Result<DepositAccount, CitizenErr> {
    if d.amount != 0 && d.bump != expected_bump {
        Err(CitizenErr::NotAuthorized)
    } else if d.amount + amount > u64::MAX {
        Err(CitizenErr::NumericalOverflow)
    } else if d.amount == 0 {
        Ok(
            DepositAccount {
                user,
                proposal,
                amount,
                claimed: d.claimed,
                bump: expected_bump,
            },
        )
    } else {
        Ok(DepositAccount { amount: (d.amount + amount) as u64, ..d })
    }
}

/// Upsert-accumulate on a stake record. On the first deposit (sentinel:
/// `amount == 0`) the staker, proposal and bump are recorded; afterwards the
/// caller-supplied bump must match the recorded one, or nothing changes and
/// the call fails with `NotAuthorized`. The amount accumulates with an
/// explicit 64-bit overflow check: on overflow nothing changes and the call
/// fails with `NumericalOverflow`.
pub fn upsert_deposit(
    deposit: &mut DepositAccount,
    user: Identity,
    proposal: Identity,
    expected_bump: u8,
    amount: u64,
) -> (r: Result<(), CitizenErr>)
    ensures
        upsert_model(*old(deposit), user, proposal, expected_bump, amount) matches Ok(d2) ==> (r
            is Ok && *final(deposit) == d2),
        upsert_model(*old(deposit), user, proposal, expected_bump, amount) matches Err(e) ==> (r
            == Err::<(), CitizenErr>(e) && *final(deposit) == *old(deposit)),
{
    if deposit.amount == 0 {
        deposit.user = user;
        deposit.proposal = proposal;
        deposit.bump = expected_bump;
    } else if deposit.bump != expected_bump {
        return Err(CitizenErr::NotAuthorized);
    }
    if amount > u64::MAX - deposit.amount {
        return Err(CitizenErr::NumericalOverflow);
    }
    deposit.amount = deposit.amount + amount;
    Ok(())
}

/// The sum of a run of deposit amounts.
pub open spec fn sum_amounts(amounts: Seq<u64>) -> int
    decreases amounts.len(),
{
    if amounts.len() == 0 {
        0
    } else {
        amounts.first() + sum_amounts(amounts.skip(1))
    }
}

/// A run of upserts on one record, all from the same staker on the same
/// proposal with the same bump, stopping at the first failure.
pub open spec fn stake_run(
    d: DepositAccount,
    user: Identity,
    proposal: Identity,
    expected_bump: u8,
    amounts: Seq<u64>,
) -> Result<DepositAccount, CitizenErr>
    decreases amounts.len(),
{
    if amounts.len() == 0 {
        Ok(d)
    } else {
        match upsert_model(d, user, proposal, expected_bump, amounts.first()) {
            Ok(d2) => stake_run(d2, user, proposal, expected_bump, amounts.skip(1)),
            Err(e) => Err(e),
        }
    }
}

/// A sum of unsigned amounts is never negative.
pub proof fn lemma_sum_nonneg(amounts: Seq<u64>)
    ensures
        sum_amounts(amounts) >= 0,
    decreases amounts.len(),
{
    if amounts.len() > 0 {
        lemma_sum_nonneg(amounts.skip(1));
    }
}

/// Accumulation: a run of deposits whose total stays within 64 bits — on a
/// record whose bump matches, or a fresh one — succeeds in every step, and
/// the final amount is the starting amount plus the sum of the deposits. The
/// claim flag is untouched. (A run that would overflow fails at the offending
/// deposit with `NumericalOverflow` and leaves the record as it was before
/// that deposit: that is each single upsert's contract.)
pub proof fn lemma_accumulation(
    d: DepositAccount,
    user: Identity,
    proposal: Identity,
    expected_bump: u8,
    amounts: Seq<u64>,
)
    requires
        d.amount != 0 ==> d.bump == expected_bump,
        d.amount + sum_amounts(amounts) <= u64::MAX,
    ensures
        stake_run(d, user, proposal, expected_bump, amounts) matches Ok(d2) && d2.amount
            == d.amount + sum_amounts(amounts) && d2.claimed == d.claimed,
    decreases amounts.len(),
{
    if amounts.len() > 0 {
        lemma_sum_nonneg(amounts.skip(1));
        let step = upsert_model(d, user, proposal, expected_bump, amounts.first());
        let d1 = step->Ok_0;
        lemma_accumulation(d1, user, proposal, expected_bump, amounts.skip(1));
    }
}

/// The overflow side of accumulation: a run of deposits under the right bump
/// whose total would leave the 64-bit range stops at the offending deposit
/// with `NumericalOverflow` — never by saturating silently. (That the record
/// is unchanged from before the offending call is each single upsert's
/// contract.)
pub proof fn lemma_accumulation_overflow(
    d: DepositAccount,
    user: Identity,
    proposal: Identity,
    expected_bump: u8,
    amounts: Seq<u64>,
)
    requires
        d.amount != 0 ==> d.bump == expected_bump,
        d.amount + sum_amounts(amounts) > u64::MAX,
    ensures
        stake_run(d, user, proposal, expected_bump, amounts) == Err::<DepositAccount, CitizenErr>(
            CitizenErr::NumericalOverflow,
        ),
    decreases amounts.len(),
{
    if amounts.len() > 0 {
        let step = upsert_model(d, user, proposal, expected_bump, amounts.first());
        if d.amount + amounts.first() <= u64::MAX {
            let d1 = step->Ok_0;
            lemma_accumulation_overflow(d1, user, proposal, expected_bump, amounts.skip(1));
        }
    }
}

} // verus!
