use vstd::prelude::*;

verus! {

/// A 32-byte account identity, held as its big-endian upper and lower halves.
#[derive(Clone, Copy, Debug, PartialEq, Eq, Structural)]
pub struct Address {
    pub hi: u128,
    pub lo: u128,
}

impl Address {
    /// The all-zero identity, used as the "unset" marker for player B.
    pub open spec fn spec_zero() -> Address {
        Address { hi: 0, lo: 0 }
    }

    pub fn zero() -> (r: Address)
        ensures
            r == Address::spec_zero(),
    {
        Address { hi: 0, lo: 0 }
    }

    pub fn new(hi: u128, lo: u128) -> (r: Address)
        ensures
            r.hi == hi,
            r.lo == lo,
    {
        Address { hi, lo }
    }
}

/// Lifecycle of a match. `Settled`, `Refunded` and `Cancelled` are terminal.
#[derive(Clone, Copy, Debug, PartialEq, Eq, Structural)]
pub enum MatchState {
    WaitingForB,
    Active,
    Settled,
    Refunded,
    Cancelled,
}

impl MatchState {
    /// Position along the lifecycle: every transition moves to a higher rank.
    pub open spec fn rank(self) -> int {
        match self {
            MatchState::WaitingForB => 0,
            MatchState::Active => 1,
            _ => 2,
        }
    }

    pub open spec fn spec_is_terminal(self) -> bool {
        self is Settled || self is Refunded || self is Cancelled
    }

    /// Whether no further transition is possible from this state.
    pub fn is_terminal(&self) -> (r: bool)
        ensures
            r == self.spec_is_terminal(),
    {
        match self {
            MatchState::WaitingForB | MatchState::Active => false,
            _ => true,
        }
    }
}

/// Every way an operation can be rejected. A rejected operation has no effect.
#[derive(Clone, Copy, Debug, PartialEq, Eq, Structural)]
pub enum EscrowError {
    /// The caller is not the identity the transition requires.
    Unauthorized,
    /// The match is not in a state that permits the operation.
    InvalidState,
    /// An amount would overflow, underflow, or exceed the balance it is drawn from.
    MathOverflow,
    /// The stake offered at creation is zero.
    InvalidStake,
    /// The declared winner is neither registered participant.
    InvalidWinner,
    /// The join window has closed.
    JoinExpired,
    /// The join window is still open.
    JoinNotExpired,
    /// The settlement deadline has not passed yet.
    SettlementDeadlineNotReached,
    /// The player-B account handed in is not the one registered on the match.
    InvalidPlayerB,
}

/// Deployment-wide settings, written once and read by every operation.
#[derive(Clone, Copy, Debug, PartialEq, Eq, Structural)]
pub struct Config {
    pub admin: Address,
    pub server_authority: Address,
    pub fee_bps: u64,
    pub fee_vault: Address,
    pub bump: u8,
}

impl Config {
    /// The fee rate is at most the whole pot.
    pub open spec fn wf(self) -> bool {
        self.fee_bps <= 10_000
    }
}

/// The persisted record of one wager.
#[derive(Clone, Copy, Debug, PartialEq, Eq, Structural)]
pub struct Match {
    pub player_a: Address,
    pub player_b: Address,
    pub stake: u64,
    pub state: MatchState,
    pub created_at: i64,
    pub join_expiry_ts: i64,
    pub settle_deadline_ts: i64,
    pub vault_bump: u8,
}

impl Match {
    /// The stake is positive, and while nobody has joined, player B and the
    /// settlement deadline are still unset.
    pub open spec fn wf(self) -> bool {
        &&& self.stake > 0
        &&& self.state is WaitingForB ==> {
            &&& self.player_b == Address::spec_zero()
            &&& self.settle_deadline_ts == 0
        }
    }
}

/// A participant's account: its identity and its balance.
#[derive(Clone, Copy, Debug, PartialEq, Eq, Structural)]
pub struct Wallet {
    pub key: Address,
    pub lamports: u64,
}

} // verus!
