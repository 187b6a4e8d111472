use crate::errors::DroogError;
use crate::identity::PlayerKey;
use crate::state::match_state::{MatchPhase, MatchState};
use crate::state::stake_state::{MatchStakeState, MatchStatus, StakePayoutEvent};
use vstd::prelude::*;

verus! {

/// Audit record: the match is closed, with the final tallies.
#[derive(Clone, Copy, Debug, PartialEq, Eq)]
pub struct MatchFinalizedEvent {
    pub match_id: u64,
    pub finalized_at: i64,
    pub player_a_sales: u32,
    pub player_b_sales: u32,
    pub player_a_reputation: i32,
    pub player_b_reputation: i32,
}

/// Why a finalization is refused, if it is. The reasons are asked in this
/// order, and the first that holds is the one reported. `payout_owner` is
/// the owner of the account that the payout is to go to.
pub open spec fn spec_finalize_refusal(
    match_state: MatchState,
    stake_state: MatchStakeState,
    player: PlayerKey,
    payout_owner: PlayerKey,
    current_ts: i64,
) -> Option<DroogError> {
    if stake_state.match_id != match_state.match_id {
        Some(DroogError::MatchIdMismatch)
    } else if stake_state.status != MatchStatus::Active {
        Some(DroogError::MatchNotActive)
    } else if !match_state.spec_is_participant(payout_owner) {
        Some(DroogError::InvalidPlayer)
    } else if match_state.is_finalized {
        Some(DroogError::MatchAlreadyFinalized)
    } else if current_ts < match_state.end_ts {
        Some(DroogError::MatchFinalizationTooEarly)
    } else if !match_state.spec_is_participant(player) {
        Some(DroogError::UnauthorizedFinalization)
    } else if payout_owner != match_state.spec_winner() {
        Some(DroogError::InvalidPlayer)
    } else {
        None
    }
}

/// `after` is `before` but for the status, which is finalized.
pub open spec fn spec_is_payout_of(after: MatchStakeState, before: MatchStakeState) -> bool {
    after == (MatchStakeState { status: MatchStatus::Finalized, ..before })
}

/// The audit records of a finalization at `current_ts` that pays
/// `escrow_balance` out: the final tallies, and the payout to the winner.
pub open spec fn spec_finalize_events(
    match_state: MatchState,
    escrow_balance: u64,
    current_ts: i64,
) -> (MatchFinalizedEvent, StakePayoutEvent) {
    let a_wins = match_state.player_a_sales >= match_state.player_b_sales;
    (
        MatchFinalizedEvent {
            match_id: match_state.match_id,
            finalized_at: current_ts,
            player_a_sales: match_state.player_a_sales,
            player_b_sales: match_state.player_b_sales,
            player_a_reputation: match_state.player_a_reputation,
            player_b_reputation: match_state.player_b_reputation,
        },
        StakePayoutEvent {
            match_id: match_state.match_id,
            winner: match_state.spec_winner(),
            loser: match_state.spec_loser(),
            amount: escrow_balance,
            winner_sales: match_state.spec_sales_of(a_wins),
            loser_sales: match_state.spec_sales_of(!a_wins),
            timestamp: current_ts,
        },
    )
}

/// What a finalization returns: the refusal, or else the audit records.
pub open spec fn spec_finalize_result(
    match_state: MatchState,
    stake_state: MatchStakeState,
    player: PlayerKey,
    payout_owner: PlayerKey,
    escrow_balance: u64,
    current_ts: i64,
) -> Result<(MatchFinalizedEvent, StakePayoutEvent), DroogError> {
    match spec_finalize_refusal(match_state, stake_state, player, payout_owner, current_ts) {
        Some(refusal) => Err(refusal),
        None => Ok(spec_finalize_events(match_state, escrow_balance, current_ts)),
    }
}

/// Closes the match and settles the stake, in one step.
///
/// Finalizing goes through only once, at or after the end of the match, on
/// the call of one of its two players, with an active stake of the same
/// match, and towards an account of the winner. The winner is the player
/// with more sales, and player A where both have as many. The match is then
/// finalized for good and the stake with it, and the payout record tells
/// the caller what to move: all of `escrow_balance`, the balance that the
/// escrow really holds, to the winner. A refused finalization changes
/// nothing.
pub fn finalize_match(
    match_state: &mut MatchState,
    stake_state: &mut MatchStakeState,
    player: &PlayerKey,
    payout_owner: &PlayerKey,
    escrow_balance: u64,
    current_ts: i64,
) -> (result: Result<(MatchFinalizedEvent, StakePayoutEvent), DroogError>)
    ensures
        result == spec_finalize_result(
            *old(match_state),
            *old(stake_state),
            *player,
            *payout_owner,
            escrow_balance,
            current_ts,
        ),
        result is Err ==> *final(match_state) == *old(match_state),
        result is Err ==> *final(stake_state) == *old(stake_state),
        result is Ok ==> final(match_state).spec_is_finalization_of(*old(match_state)),
        result is Ok ==> spec_is_payout_of(*final(stake_state), *old(stake_state)),
        result is Ok ==> old(stake_state).status.spec_may_become(final(stake_state).status),
        result is Ok ==> result->Ok_0.1.winner == *payout_owner && result->Ok_0.1.amount
            == escrow_balance,
        result is Ok ==> current_ts >= old(match_state).end_ts,
        result is Ok && old(match_state).start_ts <= old(match_state).end_ts ==> old(
            match_state,
        ).spec_phase(current_ts) == MatchPhase::Ended,
        result is Ok ==> final(match_state).spec_phase(current_ts) == MatchPhase::Finalized,
        old(match_state).is_finalized ==> result is Err,
        old(match_state).wf() ==> final(match_state).wf(),
        old(stake_state).wf() ==> final(stake_state).wf(),
{
    if stake_state.match_id != match_state.match_id {
        return Err(DroogError::MatchIdMismatch);
    }
    if stake_state.status != MatchStatus::Active {
        return Err(DroogError::MatchNotActive);
    }
    let owner_is_a = payout_owner.same_as(&match_state.player_a);
    let owner_is_b = payout_owner.same_as(&match_state.player_b);
    if !(owner_is_a || owner_is_b) {
        return Err(DroogError::InvalidPlayer);
    }
    if match_state.is_finalized {
        return Err(DroogError::MatchAlreadyFinalized);
    }
    if current_ts < match_state.end_ts {
        return Err(DroogError::MatchFinalizationTooEarly);
    }
    let is_player_a = player.same_as(&match_state.player_a);
    let is_player_b = player.same_as(&match_state.player_b);
    if !(is_player_a || is_player_b) {
        return Err(DroogError::UnauthorizedFinalization);
    }
    let a_wins = match_state.player_a_sales >= match_state.player_b_sales;
    let (winner, loser, winner_sales, loser_sales) = if a_wins {
        (
            match_state.player_a,
            match_state.player_b,
            match_state.player_a_sales,
            match_state.player_b_sales,
        )
    } else {
        (
            match_state.player_b,
            match_state.player_a,
            match_state.player_b_sales,
            match_state.player_a_sales,
        )
    };
    if !payout_owner.same_as(&winner) {
        return Err(DroogError::InvalidPlayer);
    }
    match_state.is_finalized = true;
    stake_state.status = MatchStatus::Finalized;
    Ok(
        (
            MatchFinalizedEvent {
                match_id: match_state.match_id,
                finalized_at: current_ts,
                player_a_sales: match_state.player_a_sales,
                player_b_sales: match_state.player_b_sales,
                player_a_reputation: match_state.player_a_reputation,
                player_b_reputation: match_state.player_b_reputation,
            },
            StakePayoutEvent {
                match_id: match_state.match_id,
                winner,
                loser,
                amount: escrow_balance,
                winner_sales,
                loser_sales,
                timestamp: current_ts,
            },
        ),
    )
}

} // verus!
