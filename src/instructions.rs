use vstd::prelude::*;

use crate::settlement::{
    compute_settlement, fee_of, payout_of, settlement_fits, total_pot_of, Settlement,
};
use crate::types::{Address, Config, EscrowError, Match, MatchState, Wallet};
use crate::vault::{transfer_from_vault, transfer_lamports};

verus! {

/// `w` with `amount` added to its balance.
pub open spec fn credited(w: Wallet, amount: int) -> Wallet {
    Wallet { key: w.key, lamports: (w.lamports + amount) as u64 }
}

/// `w` can receive `amount` without its balance overflowing.
pub open spec fn can_receive(w: Wallet, amount: int) -> bool {
    w.lamports + amount <= u64::MAX
}

/// `m` moved to `state`, every other field kept.
pub open spec fn with_state(m: Match, state: MatchState) -> Match {
    Match { state, ..m }
}

/// An operation that returned `r` and turned `before` into `after` did what
/// `expected` describes: on success it reached exactly that value, on failure
/// it returned that error and changed nothing.
pub open spec fn performed<C>(
    r: Result<(), EscrowError>,
    before: C,
    after: C,
    expected: Result<C, EscrowError>,
) -> bool {
    match expected {
        Ok(c) => r is Ok && after == c,
        Err(e) => r == Err::<(), EscrowError>(e) && after == before,
    }
}

/// The accounts a settlement touches, as the execution environment hands them in.
/// `server_authority` is the signing caller; `vault` is the match vault's balance.
#[derive(Clone, Copy, Debug, PartialEq, Eq, Structural)]
pub struct Settle {
    pub server_authority: Address,
    pub config: Config,
    pub game_match: Match,
    pub vault: u64,
    pub player_a: Wallet,
    pub player_b: Wallet,
    pub fee_vault: Wallet,
}

/// The settlement transition. Only the server authority may settle, only an
/// active match, and only in favour of one of its two players. The fee goes to
/// the fee vault, the payout to the winner, whatever else the vault holds to
/// player A, and the match ends `Settled` with an empty vault.
pub open spec fn settle_result(c: Settle, winner: Address) -> Result<Settle, EscrowError> {
    let m = c.game_match;
    let bps = c.config.fee_bps as int;
    if c.server_authority != c.config.server_authority || c.player_a.key != m.player_a
        || c.fee_vault.key != c.config.fee_vault {
        Err(EscrowError::Unauthorized)
    } else if c.player_b.key != m.player_b {
        Err(EscrowError::InvalidPlayerB)
    } else if !(m.state is Active) {
        Err(EscrowError::InvalidState)
    } else if winner != m.player_a && winner != m.player_b {
        Err(EscrowError::InvalidWinner)
    } else if !settlement_fits(m.stake as int, bps) {
        Err(EscrowError::MathOverflow)
    } else {
        let fee = fee_of(m.stake as int, bps);
        let payout = payout_of(m.stake as int, bps);
        let residual = c.vault - total_pot_of(m.stake as int);
        let a_gets = if winner == m.player_a {
            payout + residual
        } else {
            residual
        };
        let b_gets = if winner == m.player_a {
            0
        } else {
            payout
        };
        if residual < 0 || !can_receive(c.fee_vault, fee) || !can_receive(c.player_a, a_gets)
            || !can_receive(c.player_b, b_gets) {
            Err(EscrowError::MathOverflow)
        } else {
            Ok(
                Settle {
                    game_match: with_state(m, MatchState::Settled),
                    vault: 0,
                    player_a: credited(c.player_a, a_gets),
                    player_b: credited(c.player_b, b_gets),
                    fee_vault: credited(c.fee_vault, fee),
                    ..c
                },
            )
        }
    }
}

/// Pays out an active match to `winner_pubkey`, as [`settle_result`] describes.
pub fn settle(ctx: &mut Settle, winner_pubkey: Address) -> (r: Result<(), EscrowError>)
    ensures
        performed(r, *old(ctx), *final(ctx), settle_result(*old(ctx), winner_pubkey)),
{
    let m = ctx.game_match;
    if ctx.server_authority != ctx.config.server_authority || ctx.player_a.key != m.player_a
        || ctx.fee_vault.key != ctx.config.fee_vault {
        return Err(EscrowError::Unauthorized);
    }
    if ctx.player_b.key != m.player_b {
        return Err(EscrowError::InvalidPlayerB);
    }
    if !matches!(m.state, MatchState::Active) {
        return Err(EscrowError::InvalidState);
    }
    if winner_pubkey != m.player_a && winner_pubkey != m.player_b {
        return Err(EscrowError::InvalidWinner);
    }
    let split: Settlement = match compute_settlement(m.stake, ctx.config.fee_bps) {
        Ok(s) => s,
        Err(e) => return Err(e),
    };

    let mut vault = ctx.vault;
    let mut fee_vault = ctx.fee_vault;
    let mut player_a = ctx.player_a;
    let mut player_b = ctx.player_b;
    if let Err(e) = transfer_from_vault(&mut vault, &mut fee_vault, split.fee) {
        return Err(e);
    }
    let paid = if winner_pubkey == m.player_a {
        transfer_from_vault(&mut vault, &mut player_a, split.payout)
    } else {
        transfer_from_vault(&mut vault, &mut player_b, split.payout)
    };
    if let Err(e) = paid {
        return Err(e);
    }
    let residual = vault;
    if let Err(e) = transfer_from_vault(&mut vault, &mut player_a, residual) {
        return Err(e);
    }

    ctx.vault = vault;
    ctx.fee_vault = fee_vault;
    ctx.player_a = player_a;
    ctx.player_b = player_b;
    ctx.game_match.state = MatchState::Settled;
    Ok(())
}

/// The accounts a forced cancellation touches. `server_authority` is the
/// signing caller; `player_b` matters only once the match is active.
#[derive(Clone, Copy, Debug, PartialEq, Eq, Structural)]
pub struct CancelActiveMatch {
    pub server_authority: Address,
    pub config: Config,
    pub game_match: Match,
    pub vault: u64,
    pub player_a: Wallet,
    pub player_b: Wallet,
}

/// The forced cancellation. Only the server authority may cancel. A match
/// still waiting for player B returns the whole vault to player A; an active
/// one returns one stake to the registered player B and the rest to player A.
/// Either way it ends `Cancelled` with an empty vault.
pub open spec fn cancel_active_match_result(c: CancelActiveMatch) -> Result<
    CancelActiveMatch,
    EscrowError,
> {
    let m = c.game_match;
    if c.server_authority != c.config.server_authority || c.player_a.key != m.player_a {
        Err(EscrowError::Unauthorized)
    } else if m.state is WaitingForB {
        if !can_receive(c.player_a, c.vault as int) {
            Err(EscrowError::MathOverflow)
        } else {
            Ok(
                CancelActiveMatch {
                    game_match: with_state(m, MatchState::Cancelled),
                    vault: 0,
                    player_a: credited(c.player_a, c.vault as int),
                    ..c
                },
            )
        }
    } else if m.state is Active {
        let rest = c.vault - m.stake;
        if c.player_b.key != m.player_b {
            Err(EscrowError::InvalidPlayerB)
        } else if rest < 0 || !can_receive(c.player_b, m.stake as int) || !can_receive(
            c.player_a,
            rest,
        ) {
            Err(EscrowError::MathOverflow)
        } else {
            Ok(
                CancelActiveMatch {
                    game_match: with_state(m, MatchState::Cancelled),
                    vault: 0,
                    player_a: credited(c.player_a, rest),
                    player_b: credited(c.player_b, m.stake as int),
                    ..c
                },
            )
        }
    } else {
        Err(EscrowError::InvalidState)
    }
}

/// Cancels a match on the server authority's word, as
/// [`cancel_active_match_result`] describes.
pub fn cancel_active_match(ctx: &mut CancelActiveMatch) -> (r: Result<(), EscrowError>)
    ensures
        performed(r, *old(ctx), *final(ctx), cancel_active_match_result(*old(ctx))),
{
    let m = ctx.game_match;
    if ctx.server_authority != ctx.config.server_authority || ctx.player_a.key != m.player_a {
        return Err(EscrowError::Unauthorized);
    }
    let mut vault = ctx.vault;
    let mut player_a = ctx.player_a;
    let mut player_b = ctx.player_b;
    match m.state {
        MatchState::WaitingForB => {
            let total_refund = vault;
            if let Err(e) = transfer_from_vault(&mut vault, &mut player_a, total_refund) {
                return Err(e);
            }
        },
        MatchState::Active => {
            if ctx.player_b.key != m.player_b {
                return Err(EscrowError::InvalidPlayerB);
            }
            if let Err(e) = transfer_from_vault(&mut vault, &mut player_b, m.stake) {
                return Err(e);
            }
            let remaining = vault;
            if let Err(e) = transfer_from_vault(&mut vault, &mut player_a, remaining) {
                return Err(e);
            }
        },
        _ => return Err(EscrowError::InvalidState),
    }
    ctx.vault = vault;
    ctx.player_a = player_a;
    ctx.player_b = player_b;
    ctx.game_match.state = MatchState::Cancelled;
    Ok(())
}

/// `a + b`, clamped to the range of `i64`.
pub open spec fn saturating_sum(a: int, b: int) -> int {
    if a + b > i64::MAX {
        i64::MAX as int
    } else if a + b < i64::MIN {
        i64::MIN as int
    } else {
        a + b
    }
}

/// Adds a duration to a timestamp, saturating at the bounds of `i64`.
pub fn saturating_add_i64(a: i64, b: i64) -> (r: i64)
    ensures
        r == saturating_sum(a as int, b as int),
{
    match a.checked_add(b) {
        Some(v) => v,
        None => if b > 0 {
            i64::MAX
        } else {
            i64::MIN
        },
    }
}

/// The accounts match creation touches. `player_a` is the signing creator;
/// `vault` is the balance already at the vault's address, and `vault_bump`
/// the derivation tag that locates the vault from the match's identity.
#[derive(Clone, Copy, Debug, PartialEq, Eq, Structural)]
pub struct CreateMatch {
    pub player_a: Wallet,
    pub vault: u64,
    pub vault_bump: u8,
}

/// The vault's holding reserve once creation has run: what it already held,
/// or, for an empty vault, the `rent_lamports` that player A funds it with.
pub open spec fn creation_reserve(vault: u64, rent_lamports: u64) -> int {
    if vault == 0 {
        rent_lamports as int
    } else {
        vault as int
    }
}

/// The match record that creation writes.
pub open spec fn created_match(
    c: CreateMatch,
    stake: u64,
    join_expiry_secs: i64,
    now: i64,
) -> Match {
    Match {
        player_a: c.player_a.key,
        player_b: Address::spec_zero(),
        stake,
        state: MatchState::WaitingForB,
        created_at: now,
        join_expiry_ts: saturating_sum(now as int, join_expiry_secs as int) as i64,
        settle_deadline_ts: 0,
        vault_bump: c.vault_bump,
    }
}

/// Match creation. The stake must be positive. An empty vault is first funded
/// with `rent_lamports` by player A, then player A deposits the stake; the
/// join window closes `join_expiry_secs` after `now`.
pub open spec fn create_match_result(
    c: CreateMatch,
    stake: u64,
    join_expiry_secs: i64,
    now: i64,
    rent_lamports: u64,
) -> Result<(CreateMatch, Match), EscrowError> {
    let funding = if c.vault == 0 {
        rent_lamports as int
    } else {
        0
    };
    let reserve = creation_reserve(c.vault, rent_lamports);
    if stake == 0 {
        Err(EscrowError::InvalidStake)
    } else if c.player_a.lamports < funding + stake || reserve + stake > u64::MAX {
        Err(EscrowError::MathOverflow)
    } else {
        Ok(
            (
                CreateMatch {
                    player_a: credited(c.player_a, -(funding + stake)),
                    vault: (reserve + stake) as u64,
                    ..c
                },
                created_match(c, stake, join_expiry_secs, now),
            ),
        )
    }
}

/// Opens a match with player A's deposit, as [`create_match_result`] describes,
/// and returns the new record.
pub fn create_match(
    ctx: &mut CreateMatch,
    stake: u64,
    join_expiry_secs: i64,
    now: i64,
    rent_lamports: u64,
) -> (r: Result<Match, EscrowError>)
    ensures
        match create_match_result(*old(ctx), stake, join_expiry_secs, now, rent_lamports) {
            Ok((c, m)) => r == Ok::<Match, EscrowError>(m) && *final(ctx) == c,
            Err(e) => r == Err::<Match, EscrowError>(e) && *final(ctx) == *old(ctx),
        },
{
    if stake == 0 {
        return Err(EscrowError::InvalidStake);
    }
    let mut player_a = ctx.player_a.lamports;
    let mut vault = ctx.vault;
    if vault == 0 {
        if let Err(e) = transfer_lamports(&mut player_a, &mut vault, rent_lamports) {
            return Err(e);
        }
    }
    if let Err(e) = transfer_lamports(&mut player_a, &mut vault, stake) {
        return Err(e);
    }
    let game_match = Match {
        player_a: ctx.player_a.key,
        player_b: Address::zero(),
        stake,
        state: MatchState::WaitingForB,
        created_at: now,
        join_expiry_ts: saturating_add_i64(now, join_expiry_secs),
        settle_deadline_ts: 0,
        vault_bump: ctx.vault_bump,
    };
    ctx.player_a.lamports = player_a;
    ctx.vault = vault;
    Ok(game_match)
}

/// The accounts a timeout refund touches; anyone may send it.
#[derive(Clone, Copy, Debug, PartialEq, Eq, Structural)]
pub struct TimeoutRefund {
    pub game_match: Match,
    pub vault: u64,
    pub player_a: Wallet,
    pub player_b: Wallet,
}

/// The timeout refund. Once the settlement deadline has passed, an active
/// match returns one stake to each player, and whatever else the vault holds to
/// player A; it ends `Refunded` with an empty vault.
pub open spec fn timeout_refund_result(c: TimeoutRefund, now: i64) -> Result<
    TimeoutRefund,
    EscrowError,
> {
    let m = c.game_match;
    let a_gets = c.vault - m.stake;
    if c.player_a.key != m.player_a {
        Err(EscrowError::Unauthorized)
    } else if c.player_b.key != m.player_b {
        Err(EscrowError::InvalidPlayerB)
    } else if !(m.state is Active) {
        Err(EscrowError::InvalidState)
    } else if now <= m.settle_deadline_ts {
        Err(EscrowError::SettlementDeadlineNotReached)
    } else if c.vault < 2 * m.stake || !can_receive(c.player_a, a_gets) || !can_receive(
        c.player_b,
        m.stake as int,
    ) {
        Err(EscrowError::MathOverflow)
    } else {
        Ok(
            TimeoutRefund {
                game_match: with_state(m, MatchState::Refunded),
                vault: 0,
                player_a: credited(c.player_a, a_gets),
                player_b: credited(c.player_b, m.stake as int),
            },
        )
    }
}

/// Unwinds an active match whose settlement deadline has passed, as
/// [`timeout_refund_result`] describes.
pub fn timeout_refund(ctx: &mut TimeoutRefund, now: i64) -> (r: Result<(), EscrowError>)
    ensures
        performed(r, *old(ctx), *final(ctx), timeout_refund_result(*old(ctx), now)),
{
    let m = ctx.game_match;
    if ctx.player_a.key != m.player_a {
        return Err(EscrowError::Unauthorized);
    }
    if ctx.player_b.key != m.player_b {
        return Err(EscrowError::InvalidPlayerB);
    }
    if !matches!(m.state, MatchState::Active) {
        return Err(EscrowError::InvalidState);
    }
    if now <= m.settle_deadline_ts {
        return Err(EscrowError::SettlementDeadlineNotReached);
    }
    let mut vault = ctx.vault;
    let mut player_a = ctx.player_a;
    let mut player_b = ctx.player_b;
    if let Err(e) = transfer_from_vault(&mut vault, &mut player_a, m.stake) {
        return Err(e);
    }
    if let Err(e) = transfer_from_vault(&mut vault, &mut player_b, m.stake) {
        return Err(e);
    }
    let residual = vault;
    if let Err(e) = transfer_from_vault(&mut vault, &mut player_a, residual) {
        return Err(e);
    }
    ctx.vault = vault;
    ctx.player_a = player_a;
    ctx.player_b = player_b;
    ctx.game_match.state = MatchState::Refunded;
    Ok(())
}

/// The accounts joining touches. `player_b` is the signing joiner.
#[derive(Clone, Copy, Debug, PartialEq, Eq, Structural)]
pub struct JoinMatch {
    pub player_b: Wallet,
    pub game_match: Match,
    pub vault: u64,
}

/// Joining. A match waiting for player B can be joined up to and including its
/// join expiry; the joiner deposits the stake, becomes player B, and the
/// settlement deadline is set `settle_deadline_secs` after `now`.
pub open spec fn join_match_result(c: JoinMatch, settle_deadline_secs: i64, now: i64) -> Result<
    JoinMatch,
    EscrowError,
> {
    let m = c.game_match;
    if !(m.state is WaitingForB) {
        Err(EscrowError::InvalidState)
    } else if now > m.join_expiry_ts {
        Err(EscrowError::JoinExpired)
    } else if c.player_b.lamports < m.stake || c.vault + m.stake > u64::MAX {
        Err(EscrowError::MathOverflow)
    } else {
        Ok(
            JoinMatch {
                player_b: credited(c.player_b, -m.stake),
                game_match: Match {
                    player_b: c.player_b.key,
                    state: MatchState::Active,
                    settle_deadline_ts: saturating_sum(now as int, settle_deadline_secs as int)
                        as i64,
                    ..m
                },
                vault: (c.vault + m.stake) as u64,
            },
        )
    }
}

/// Joins a waiting match as player B, as [`join_match_result`] describes.
pub fn join_match(ctx: &mut JoinMatch, settle_deadline_secs: i64, now: i64) -> (r: Result<
    (),
    EscrowError,
>)
    ensures
        performed(r, *old(ctx), *final(ctx), join_match_result(*old(ctx), settle_deadline_secs, now)),
{
    if !matches!(ctx.game_match.state, MatchState::WaitingForB) {
        return Err(EscrowError::InvalidState);
    }
    if now > ctx.game_match.join_expiry_ts {
        return Err(EscrowError::JoinExpired);
    }
    let mut player_b = ctx.player_b.lamports;
    let mut vault = ctx.vault;
    if let Err(e) = transfer_lamports(&mut player_b, &mut vault, ctx.game_match.stake) {
        return Err(e);
    }
    ctx.player_b.lamports = player_b;
    ctx.vault = vault;
    ctx.game_match.player_b = ctx.player_b.key;
    ctx.game_match.state = MatchState::Active;
    ctx.game_match.settle_deadline_ts = saturating_add_i64(now, settle_deadline_secs);
    Ok(())
}

/// The accounts an unjoined cancellation touches. `player_a` is the signing caller.
#[derive(Clone, Copy, Debug, PartialEq, Eq, Structural)]
pub struct CancelUnjoined {
    pub player_a: Wallet,
    pub game_match: Match,
    pub vault: u64,
}

/// Cancelling a match nobody joined. Only player A may do it, and only once the
/// join window has closed; the whole vault returns to player A and the match
/// ends `Cancelled`.
pub open spec fn cancel_unjoined_result(c: CancelUnjoined, now: i64) -> Result<
    CancelUnjoined,
    EscrowError,
> {
    let m = c.game_match;
    if c.player_a.key != m.player_a {
        Err(EscrowError::Unauthorized)
    } else if !(m.state is WaitingForB) {
        Err(EscrowError::InvalidState)
    } else if now <= m.join_expiry_ts {
        Err(EscrowError::JoinNotExpired)
    } else if !can_receive(c.player_a, c.vault as int) {
        Err(EscrowError::MathOverflow)
    } else {
        Ok(
            CancelUnjoined {
                player_a: credited(c.player_a, c.vault as int),
                game_match: with_state(m, MatchState::Cancelled),
                vault: 0,
            },
        )
    }
}

/// Lets player A take back an expired, unjoined match, as
/// [`cancel_unjoined_result`] describes.
pub fn cancel_unjoined(ctx: &mut CancelUnjoined, now: i64) -> (r: Result<(), EscrowError>)
    ensures
        performed(r, *old(ctx), *final(ctx), cancel_unjoined_result(*old(ctx), now)),
{
    if ctx.player_a.key != ctx.game_match.player_a {
        return Err(EscrowError::Unauthorized);
    }
    if !matches!(ctx.game_match.state, MatchState::WaitingForB) {
        return Err(EscrowError::InvalidState);
    }
    if now <= ctx.game_match.join_expiry_ts {
        return Err(EscrowError::JoinNotExpired);
    }
    let mut vault = ctx.vault;
    let mut player_a = ctx.player_a;
    let total_refund = vault;
    if let Err(e) = transfer_from_vault(&mut vault, &mut player_a, total_refund) {
        return Err(e);
    }
    ctx.vault = vault;
    ctx.player_a = player_a;
    ctx.game_match.state = MatchState::Cancelled;
    Ok(())
}

/// The accounts the one-time configuration touches. `admin` is the signing
/// deployer, `config_bump` the derivation tag of the configuration record.
#[derive(Clone, Copy, Debug, PartialEq, Eq, Structural)]
pub struct InitializeConfig {
    pub admin: Address,
    pub fee_vault: Address,
    pub config_bump: u8,
}

/// Writes the deployment's configuration, with the fixed fee rate.
pub fn initialize_config(ctx: &InitializeConfig, server_authority: Address) -> (r: Config)
    ensures
        r == (Config {
            admin: ctx.admin,
            server_authority,
            fee_bps: crate::settlement::FEE_BPS,
            fee_vault: ctx.fee_vault,
            bump: ctx.config_bump,
        }),
        r.wf(),
{
    Config {
        admin: ctx.admin,
        server_authority,
        fee_bps: crate::settlement::FEE_BPS,
        fee_vault: ctx.fee_vault,
        bump: ctx.config_bump,
    }
}

} // verus!
