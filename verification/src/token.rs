use vstd::prelude::*;

use crate::errors::TokenErr;

verus! {

/// A token account of the external fungible-token ledger, modelled by the one
/// value the escrow logic reads and writes: its balance. Ownership and
/// signature checks on real accounts stay with the ledger itself.
#[derive(Clone, Copy, Debug, PartialEq, Eq, Structural)]
pub struct TokenAccount {
    pub amount: u64,
}

/// The fungible mint, modelled by its total supply and its decimal places.
#[derive(Clone, Copy, Debug, PartialEq, Eq, Structural)]
pub struct Mint {
    pub supply: u64,
    pub decimals: u8,
}

/// When a transfer of `amount` from `from` to `to` succeeds: the source must
/// cover the amount and the destination balance must stay in 64-bit range.
pub open spec fn transfer_ok(from: TokenAccount, to: TokenAccount, amount: u64) -> bool {
    amount <= from.amount && to.amount + amount <= u64::MAX
}

/// The token ledger's transfer primitive: moves `amount` from `from` to `to`,
/// atomically — on failure neither balance changes.
pub fn transfer(from: &mut TokenAccount, to: &mut TokenAccount, amount: u64) -> (r: Result<
    (),
    TokenErr,
>)
    ensures
        r is Ok <==> transfer_ok(*old(from), *old(to), amount),
        r is Ok ==> final(from).amount == old(from).amount - amount && final(to).amount == old(
            to,
        ).amount + amount,
        r is Err ==> *final(from) == *old(from) && *final(to) == *old(to),
        r == Err::<(), TokenErr>(TokenErr::InsufficientFunds) <==> amount > old(from).amount,
        r == Err::<(), TokenErr>(TokenErr::BalanceOverflow) <==> (amount <= old(from).amount
            && old(to).amount + amount > u64::MAX),
{
    if amount > from.amount {
        return Err(TokenErr::InsufficientFunds);
    }
    if amount > u64::MAX - to.amount {
        return Err(TokenErr::BalanceOverflow);
    }
    from.amount = from.amount - amount;
    to.amount = to.amount + amount;
    Ok(())
}

/// The deposit-direction shape of the vault transfer service: a staker's
/// account pays into the central vault.
pub fn transfer_to_vault(from: &mut TokenAccount, vault: &mut TokenAccount, amount: u64) -> (r:
    Result<(), TokenErr>)
    ensures
        r is Ok <==> transfer_ok(*old(from), *old(vault), amount),
        r is Ok ==> final(from).amount == old(from).amount - amount && final(vault).amount == old(
            vault,
        ).amount + amount,
        r is Err ==> *final(from) == *old(from) && *final(vault) == *old(vault),
        r == Err::<(), TokenErr>(TokenErr::InsufficientFunds) <==> amount > old(from).amount,
        r == Err::<(), TokenErr>(TokenErr::BalanceOverflow) <==> (amount <= old(from).amount
            && old(vault).amount + amount > u64::MAX),
{
    transfer(from, vault, amount)
}

} // verus!
