use vstd::prelude::*;

use crate::instructions::{
    CancelActiveMatch, CancelUnjoined, CreateMatch, JoinMatch, Settle, TimeoutRefund,
    can_receive, cancel_active_match_result, cancel_unjoined_result, create_match_result,
    creation_reserve, join_match_result, settle_result, timeout_refund_result,
};
use crate::settlement::{fee_of, settlement_fits, total_pot_of};
use crate::types::{Address, Config, EscrowError};
use crate::vault::vault_holds;

verus! {

/// A new match is well formed, waits for player B, and its vault holds
/// exactly the holding reserve plus one stake.
pub proof fn lemma_create_fills_vault(
    c: CreateMatch,
    stake: u64,
    join_expiry_secs: i64,
    now: i64,
    rent_lamports: u64,
)
    ensures
        create_match_result(c, stake, join_expiry_secs, now, rent_lamports) matches Ok((c2, m))
            ==> {
            &&& m.wf()
            &&& m.state is WaitingForB
            &&& c2.vault == vault_holds(
                m.state,
                m.stake as int,
                creation_reserve(c.vault, rent_lamports),
            )
        },
{
}

/// Joining keeps the vault in step with the state: a vault that held the
/// reserve plus one stake holds the reserve plus both stakes once active.
pub proof fn lemma_join_keeps_vault_in_step(
    c: JoinMatch,
    settle_deadline_secs: i64,
    now: i64,
    reserve: int,
)
    requires
        c.vault == vault_holds(c.game_match.state, c.game_match.stake as int, reserve),
    ensures
        join_match_result(c, settle_deadline_secs, now) matches Ok(c2) ==> c2.vault
            == vault_holds(c2.game_match.state, c2.game_match.stake as int, reserve),
{
}

/// Settling ends the match with an empty vault, as every terminal state has.
pub proof fn lemma_settle_empties_vault(c: Settle, winner: Address, reserve: int)
    ensures
        settle_result(c, winner) matches Ok(c2) ==> c2.vault == vault_holds(
            c2.game_match.state,
            c2.game_match.stake as int,
            reserve,
        ) == 0,
{
}

/// Cancelling an unjoined match ends it with an empty vault.
pub proof fn lemma_cancel_unjoined_empties_vault(c: CancelUnjoined, now: i64, reserve: int)
    ensures
        cancel_unjoined_result(c, now) matches Ok(c2) ==> c2.vault == vault_holds(
            c2.game_match.state,
            c2.game_match.stake as int,
            reserve,
        ) == 0,
{
}

/// A forced cancellation ends the match with an empty vault.
pub proof fn lemma_cancel_active_empties_vault(c: CancelActiveMatch, reserve: int)
    ensures
        cancel_active_match_result(c) matches Ok(c2) ==> c2.vault == vault_holds(
            c2.game_match.state,
            c2.game_match.stake as int,
            reserve,
        ) == 0,
{
}

/// A timeout refund ends the match with an empty vault.
pub proof fn lemma_timeout_refund_empties_vault(c: TimeoutRefund, now: i64, reserve: int)
    ensures
        timeout_refund_result(c, now) matches Ok(c2) ==> c2.vault == vault_holds(
            c2.game_match.state,
            c2.game_match.stake as int,
            reserve,
        ) == 0,
{
}

/// Settlement succeeds only from `Active`, and leaves the match terminal,
/// `Settled`, with nothing left in its vault.
pub proof fn lemma_settle_only_from_active(c: Settle, winner: Address)
    ensures
        settle_result(c, winner) matches Ok(c2) ==> {
            &&& c.game_match.state is Active
            &&& c2.game_match.state is Settled
            &&& c2.game_match.state.spec_is_terminal()
            &&& c2.vault == 0
        },
{
}

/// A match that has been settled cannot be settled again: the second attempt,
/// with the same accounts and any winner, fails with `InvalidState`.
pub proof fn lemma_settle_not_repeatable(c: Settle, winner: Address, second_winner: Address)
    ensures
        settle_result(c, winner) matches Ok(c2) ==> settle_result(c2, second_winner) == Err::<
            Settle,
            EscrowError,
        >(EscrowError::InvalidState),
{
}

/// The join window includes its expiry: one second later joining fails with
/// `JoinExpired`, while at the expiry itself it succeeds whenever player B can
/// fund the deposit.
pub proof fn lemma_join_window_inclusive(c: JoinMatch, settle_deadline_secs: i64)
    requires
        c.game_match.state is WaitingForB,
        c.game_match.join_expiry_ts < i64::MAX,
    ensures
        join_match_result(c, settle_deadline_secs, (c.game_match.join_expiry_ts + 1) as i64)
            == Err::<JoinMatch, EscrowError>(EscrowError::JoinExpired),
        join_match_result(c, settle_deadline_secs, c.game_match.join_expiry_ts) is Ok <==> (
        c.player_b.lamports >= c.game_match.stake && c.vault + c.game_match.stake <= u64::MAX),
{
}

/// The settlement deadline is exclusive: at the deadline a timeout refund
/// fails with `SettlementDeadlineNotReached`, one second later it succeeds
/// whenever the vault holds both stakes and both refunds fit.
pub proof fn lemma_timeout_after_deadline(c: TimeoutRefund)
    requires
        c.game_match.state is Active,
        c.player_a.key == c.game_match.player_a,
        c.player_b.key == c.game_match.player_b,
        c.game_match.settle_deadline_ts < i64::MAX,
    ensures
        timeout_refund_result(c, c.game_match.settle_deadline_ts) == Err::<
            TimeoutRefund,
            EscrowError,
        >(EscrowError::SettlementDeadlineNotReached),
        timeout_refund_result(c, (c.game_match.settle_deadline_ts + 1) as i64) is Ok <==> (c.vault
            >= 2 * c.game_match.stake && can_receive(c.player_a, c.vault - c.game_match.stake)
            && can_receive(c.player_b, c.game_match.stake as int)),
{
}

/// Only player A may cancel an unjoined match, and not while its join window
/// is open: anyone else is refused with `Unauthorized` at any time, and player
/// A, up to and including the join expiry, with `JoinNotExpired`.
pub proof fn lemma_cancel_unjoined_guards(c: CancelUnjoined, now: i64)
    ensures
        c.player_a.key != c.game_match.player_a ==> cancel_unjoined_result(c, now) == Err::<
            CancelUnjoined,
            EscrowError,
        >(EscrowError::Unauthorized),
        c.player_a.key == c.game_match.player_a && c.game_match.state is WaitingForB && now
            <= c.game_match.join_expiry_ts ==> cancel_unjoined_result(c, now) == Err::<
            CancelUnjoined,
            EscrowError,
        >(EscrowError::JoinNotExpired),
{
}

/// Transitions only move forward: each successful operation takes the match to
/// a later state than the one it started from, keeps the stake and player A,
/// and keeps the record well formed.
pub proof fn lemma_transitions_move_forward(
    join: JoinMatch,
    settle_deadline_secs: i64,
    join_now: i64,
    settlement: Settle,
    winner: Address,
    unjoined: CancelUnjoined,
    cancel_now: i64,
    forced: CancelActiveMatch,
    timeout: TimeoutRefund,
    timeout_now: i64,
)
    ensures
        join_match_result(join, settle_deadline_secs, join_now) matches Ok(c) ==> {
            &&& join.game_match.state.rank() < c.game_match.state.rank()
            &&& c.game_match.stake == join.game_match.stake
            &&& c.game_match.player_a == join.game_match.player_a
            &&& (join.game_match.wf() ==> c.game_match.wf())
        },
        settle_result(settlement, winner) matches Ok(c) ==> {
            &&& settlement.game_match.state.rank() < c.game_match.state.rank()
            &&& c.game_match.stake == settlement.game_match.stake
            &&& c.game_match.player_a == settlement.game_match.player_a
            &&& (settlement.game_match.wf() ==> c.game_match.wf())
        },
        cancel_unjoined_result(unjoined, cancel_now) matches Ok(c) ==> {
            &&& unjoined.game_match.state.rank() < c.game_match.state.rank()
            &&& c.game_match.stake == unjoined.game_match.stake
            &&& c.game_match.player_a == unjoined.game_match.player_a
            &&& (unjoined.game_match.wf() ==> c.game_match.wf())
        },
        cancel_active_match_result(forced) matches Ok(c) ==> {
            &&& forced.game_match.state.rank() < c.game_match.state.rank()
            &&& c.game_match.stake == forced.game_match.stake
            &&& c.game_match.player_a == forced.game_match.player_a
            &&& (forced.game_match.wf() ==> c.game_match.wf())
        },
        timeout_refund_result(timeout, timeout_now) matches Ok(c) ==> {
            &&& timeout.game_match.state.rank() < c.game_match.state.rank()
            &&& c.game_match.stake == timeout.game_match.stake
            &&& c.game_match.player_a == timeout.game_match.player_a
            &&& (timeout.game_match.wf() ==> c.game_match.wf())
        },
{
}

/// Under a well-formed configuration the fee never exceeds the pot, so a
/// settlement's split can fail only when the pot, or the pot times the rate,
/// does not fit in a `u64`.
pub proof fn lemma_fee_within_pot(stake: u64, config: Config)
    requires
        config.wf(),
    ensures
        0 <= fee_of(stake as int, config.fee_bps as int) <= total_pot_of(stake as int),
        settlement_fits(stake as int, config.fee_bps as int) <==> (total_pot_of(stake as int)
            <= u64::MAX && total_pot_of(stake as int) * config.fee_bps <= u64::MAX),
{
    let pot = total_pot_of(stake as int);
    let bps = config.fee_bps as int;
    assert(0 <= (pot * bps) / 10000 <= pot) by (nonlinear_arith)
        requires
            pot >= 0,
            0 <= bps <= 10000,
    ;
}

} // verus!
