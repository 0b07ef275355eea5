use vstd::prelude::*;

use crate::types::EscrowError;

verus! {

/// The protocol fee rate, in basis points (15%).
pub const FEE_BPS: u64 = 1500;

/// Basis points in a whole.
pub const BPS_DENOMINATOR: u64 = 10_000;

/// The combined pot of both stakes.
pub open spec fn total_pot_of(stake: int) -> int {
    2 * stake
}

/// The fee taken from the pot: its `fee_bps` share, rounded down.
pub open spec fn fee_of(stake: int, fee_bps: int) -> int {
    (total_pot_of(stake) * fee_bps) / (BPS_DENOMINATOR as int)
}

/// What the winner receives: the pot less the fee.
pub open spec fn payout_of(stake: int, fee_bps: int) -> int {
    total_pot_of(stake) - fee_of(stake, fee_bps)
}

/// Every step of the fee computation fits in a `u64`: the pot, the pot times
/// the rate, and the payout (which would go negative for a rate above 100%).
pub open spec fn settlement_fits(stake: int, fee_bps: int) -> bool {
    &&& total_pot_of(stake) <= u64::MAX
    &&& total_pot_of(stake) * fee_bps <= u64::MAX
    &&& fee_of(stake, fee_bps) <= total_pot_of(stake)
}

/// How a settled pot is split.
#[derive(Clone, Copy, Debug, PartialEq, Eq, Structural)]
pub struct Settlement {
    pub fee: u64,
    pub payout: u64,
}

/// Splits the pot of a match with the given stake into fee and winner payout.
pub fn compute_settlement(stake: u64, fee_bps: u64) -> (r: Result<Settlement, EscrowError>)
    ensures
        r is Ok <==> settlement_fits(stake as int, fee_bps as int),
        r matches Ok(s) ==> s.fee == fee_of(stake as int, fee_bps as int) && s.payout
            == payout_of(stake as int, fee_bps as int),
        r matches Err(e) ==> e == EscrowError::MathOverflow,
{
    let total_pot = match stake.checked_mul(2) {
        Some(v) => v,
        None => return Err(EscrowError::MathOverflow),
    };
    assert(total_pot as int == total_pot_of(stake as int));
    let scaled = match total_pot.checked_mul(fee_bps) {
        Some(v) => v,
        None => return Err(EscrowError::MathOverflow),
    };
    let fee = match scaled.checked_div(BPS_DENOMINATOR) {
        Some(v) => v,
        None => return Err(EscrowError::MathOverflow),
    };
    let payout = match total_pot.checked_sub(fee) {
        Some(v) => v,
        None => return Err(EscrowError::MathOverflow),
    };
    Ok(Settlement { fee, payout })
}

/// At the deployment rate, for every stake whose pot times the rate fits in a
/// `u64`: the split succeeds, fee and payout add up to exactly twice the
/// stake, the fee is `2 * stake * 1500 / 10000` rounded down, and neither
/// part is negative.
pub proof fn lemma_fee_split(stake: u64)
    requires
        2 * stake * FEE_BPS <= u64::MAX,
    ensures
        settlement_fits(stake as int, FEE_BPS as int),
        fee_of(stake as int, FEE_BPS as int) + payout_of(stake as int, FEE_BPS as int) == 2
            * stake,
        fee_of(stake as int, FEE_BPS as int) == (2 * stake * 1500) / 10000,
        0 <= fee_of(stake as int, FEE_BPS as int),
        0 <= payout_of(stake as int, FEE_BPS as int),
{
    let s = stake as int;
    assert(0 <= (2 * s * 1500) / 10000 <= 2 * s) by (nonlinear_arith)
        requires
            s >= 0,
    ;
}

} // verus!
