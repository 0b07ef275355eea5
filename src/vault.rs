use vstd::prelude::*;

use crate::types::{EscrowError, MatchState, Wallet};

verus! {

/// What the vault of a match in `state` holds: the holding reserve plus one
/// stake while waiting for player B, the reserve plus both stakes while
/// active, and nothing once the match is over.
pub open spec fn vault_holds(state: MatchState, stake: int, reserve: int) -> int {
    match state {
        MatchState::WaitingForB => reserve + stake,
        MatchState::Active => reserve + 2 * stake,
        _ => 0,
    }
}

/// Moves `amount` between two balances. Refused, with nothing moved, when the
/// source holds less than `amount` or the destination would overflow.
pub fn transfer_lamports(from: &mut u64, to: &mut u64, amount: u64) -> (r: Result<(), EscrowError>)
    ensures
        r is Ok <==> amount <= *old(from) && *old(to) + amount <= u64::MAX,
        r is Ok ==> *final(from) == *old(from) - amount && *final(to) == *old(to) + amount,
        r is Err ==> r == Err::<(), EscrowError>(EscrowError::MathOverflow) && *final(from) == *old(
            from,
        ) && *final(to) == *old(to),
{
    let debited = match from.checked_sub(amount) {
        Some(v) => v,
        None => return Err(EscrowError::MathOverflow),
    };
    let credited = match to.checked_add(amount) {
        Some(v) => v,
        None => return Err(EscrowError::MathOverflow),
    };
    *from = debited;
    *to = credited;
    Ok(())
}

/// Pays `lamports` out of a match vault into `destination`, under the same
/// rules as [`transfer_lamports`]; the destination's identity is unchanged.
pub fn transfer_from_vault(vault: &mut u64, destination: &mut Wallet, lamports: u64) -> (r: Result<
    (),
    EscrowError,
>)
    ensures
        r is Ok <==> lamports <= *old(vault) && old(destination).lamports + lamports <= u64::MAX,
        r is Ok ==> *final(vault) == *old(vault) - lamports && final(destination).lamports == old(
            destination,
        ).lamports + lamports,
        r is Err ==> r == Err::<(), EscrowError>(EscrowError::MathOverflow) && *final(vault)
            == *old(vault) && final(destination).lamports == old(destination).lamports,
        final(destination).key == old(destination).key,
{
    transfer_lamports(vault, &mut destination.lamports, lamports)
}

} // verus!
