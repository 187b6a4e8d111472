use crate::identity::PlayerKey;
use vstd::prelude::*;

verus! {

/// What each player stakes, in raw token units.
pub const STAKE_AMOUNT: u64 = 1_000_000;

/// Share of the combined stake that is burned when the match becomes active,
/// in percent.
pub const BURN_PERCENTAGE: u64 = 10;

/// Decimals of the staked token.
pub const TOKEN_DECIMALS: u8 = 6;

/// How long player A waits for player B before the stake can be cancelled.
pub const CANCEL_TIMEOUT_SECONDS: i64 = 300;

/// Where a stake is in its life. It starts pending; from there it becomes
/// active or cancelled; an active stake becomes finalized. Nothing else
/// happens to it.
#[derive(Clone, Copy, Debug, PartialEq, Eq, Structural)]
pub enum MatchStatus {
    /// Player A has staked; player B has not joined.
    Pending,
    /// Both have staked and the burn is done; the match runs.
    Active,
    /// The winner has been paid.
    Finalized,
    /// Player A has been refunded; player B never joined.
    Cancelled,
}

impl Default for MatchStatus {
    fn default() -> (status: MatchStatus)
        ensures
            status == MatchStatus::Pending,
    {
        MatchStatus::Pending
    }
}

impl MatchStatus {
    /// A stake in status `self` can move to `next`.
    pub open spec fn spec_may_become(self, next: MatchStatus) -> bool {
        ||| self == MatchStatus::Pending && next == MatchStatus::Active
        ||| self == MatchStatus::Pending && next == MatchStatus::Cancelled
        ||| self == MatchStatus::Active && next == MatchStatus::Finalized
    }
}

/// The stake record of a match.
#[derive(Clone, Copy, Debug, PartialEq, Eq)]
pub struct MatchStakeState {
    /// Identifier of the match this record belongs to.
    pub match_id: u64,
    /// The 32-byte form of the match identifier.
    pub match_id_hash: [u8; 32],
    /// Player A.
    pub player_a: PlayerKey,
    /// Player B.
    pub player_b: PlayerKey,
    /// Where the stake is in its life.
    pub status: MatchStatus,
    /// What player A has put into escrow. A note for the books: the balance
    /// of the escrow itself is what counts.
    pub player_a_escrowed: u64,
    /// What player B has put into escrow; 0 until player B joins.
    pub player_b_escrowed: u64,
    /// When player A staked.
    pub created_at: i64,
    /// Address bump of the record, carried for the storage layer.
    pub bump: u8,
    /// Address bump of the escrow, carried for the storage layer.
    pub escrow_bump: u8,
}

/// A stake only moves forward: a status is never reached again once it is
/// left, a pending stake is the only one with two ways on, and a finalized
/// or cancelled stake moves no more.
pub proof fn lemma_status_moves_forward(from: MatchStatus, to: MatchStatus)
    ensures
        from.spec_may_become(to) ==> from != to && !to.spec_may_become(from),
        from.spec_may_become(to) ==> to != MatchStatus::Pending,
        !MatchStatus::Finalized.spec_may_become(to),
        !MatchStatus::Cancelled.spec_may_become(to),
        MatchStatus::Active.spec_may_become(to) ==> to == MatchStatus::Finalized,
{
}

impl MatchStakeState {
    /// The books agree with the status: a pending stake holds player A's
    /// amount alone, an active or finalized one holds both, a cancelled one
    /// holds none.
    pub open spec fn wf(self) -> bool {
        match self.status {
            MatchStatus::Pending => self.player_a_escrowed == STAKE_AMOUNT
                && self.player_b_escrowed == 0,
            MatchStatus::Active | MatchStatus::Finalized => self.player_a_escrowed == STAKE_AMOUNT
                && self.player_b_escrowed == STAKE_AMOUNT,
            MatchStatus::Cancelled => self.player_a_escrowed == 0 && self.player_b_escrowed == 0,
        }
    }

    /// The part of `total_escrowed` that is burned: the burn percentage of
    /// it, rounded down.
    pub open spec fn spec_burn_amount(total_escrowed: u64) -> int {
        total_escrowed * BURN_PERCENTAGE / 100
    }

    /// The stake can be cancelled at `current_ts`.
    pub open spec fn spec_can_cancel(self, current_ts: i64) -> bool {
        &&& self.status == MatchStatus::Pending
        &&& self.player_b_escrowed == 0
        &&& current_ts >= self.created_at + CANCEL_TIMEOUT_SECONDS
    }

    /// The part of `total_escrowed` that is burned on activation. The
    /// product is taken in full width, so no total is too large.
    pub fn calculate_burn_amount(total_escrowed: u64) -> (burn: u64)
        ensures
            burn == Self::spec_burn_amount(total_escrowed),
            burn <= total_escrowed,
    {
        let product: u128 = (total_escrowed as u128) * (BURN_PERCENTAGE as u128);
        (product / 100) as u64
    }

    /// Tells whether the stake can be cancelled: it is pending, player B has
    /// not joined, and the timeout has passed.
    pub fn can_cancel(&self, current_ts: i64) -> (r: bool)
        ensures
            r == self.spec_can_cancel(current_ts),
    {
        let pending = match self.status {
            MatchStatus::Pending => true,
            _ => false,
        };
        pending && self.player_b_escrowed == 0 && (current_ts as i128) >= (
        self.created_at as i128) + (CANCEL_TIMEOUT_SECONDS as i128)
    }

    /// Tells whether both players have staked and the stake is still pending.
    pub fn can_activate(&self) -> (r: bool)
        ensures
            r == (self.status == MatchStatus::Pending && self.player_a_escrowed > 0
                && self.player_b_escrowed > 0),
    {
        let pending = match self.status {
            MatchStatus::Pending => true,
            _ => false,
        };
        pending && self.player_a_escrowed > 0 && self.player_b_escrowed > 0
    }

    /// Tells whether the stake can be paid out: it is active.
    pub fn can_finalize(&self) -> (r: bool)
        ensures
            r == (self.status == MatchStatus::Active),
    {
        match self.status {
            MatchStatus::Active => true,
            _ => false,
        }
    }
}

/// Audit record: player A has staked and the match waits for player B.
#[derive(Clone, Copy, Debug, PartialEq, Eq)]
pub struct MatchStakeInitializedEvent {
    pub match_id: u64,
    pub player_a: PlayerKey,
    pub player_b: PlayerKey,
    pub amount_escrowed: u64,
    pub timestamp: i64,
}

/// Audit record: player B has joined, the burn is done, the match is active.
#[derive(Clone, Copy, Debug, PartialEq, Eq)]
pub struct MatchActivatedEvent {
    pub match_id: u64,
    pub player_a: PlayerKey,
    pub player_b: PlayerKey,
    pub total_escrowed: u64,
    pub amount_burned: u64,
    pub final_pot: u64,
    pub timestamp: i64,
}

/// Audit record: the stake was cancelled and player A refunded.
#[derive(Clone, Copy, Debug, PartialEq, Eq)]
pub struct MatchCancelledEvent {
    pub match_id: u64,
    pub player_a: PlayerKey,
    pub amount_refunded: u64,
    pub timestamp: i64,
}

/// Audit record: the winner was paid.
#[derive(Clone, Copy, Debug, PartialEq, Eq)]
pub struct StakePayoutEvent {
    pub match_id: u64,
    pub winner: PlayerKey,
    pub loser: PlayerKey,
    pub amount: u64,
    pub winner_sales: u32,
    pub loser_sales: u32,
    pub timestamp: i64,
}

} // verus!
