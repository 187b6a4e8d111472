use crate::errors::DroogError;
use crate::identity::PlayerKey;
use crate::state::stake_state::{
    MatchCancelledEvent, MatchStakeState, MatchStatus, CANCEL_TIMEOUT_SECONDS,
};
use vstd::prelude::*;

verus! {

/// Why a cancellation is refused, if it is. The reasons are asked in this
/// order, and the first that holds is the one reported.
pub open spec fn spec_cancel_refusal(
    stake_state: MatchStakeState,
    player: PlayerKey,
    current_ts: i64,
) -> Option<DroogError> {
    if stake_state.player_a != player {
        Some(DroogError::InvalidPlayer)
    } else if stake_state.status != MatchStatus::Pending {
        Some(DroogError::MatchNotPending)
    } else if stake_state.player_b_escrowed != 0 {
        Some(DroogError::PlayerBAlreadyJoined)
    } else if current_ts < stake_state.created_at + CANCEL_TIMEOUT_SECONDS {
        Some(DroogError::CancelTooEarly)
    } else {
        None
    }
}

/// `after` is `before` with nothing of player A on the books any more and
/// the status cancelled.
pub open spec fn spec_is_cancellation_of(after: MatchStakeState, before: MatchStakeState) -> bool {
    after == (MatchStakeState { player_a_escrowed: 0, status: MatchStatus::Cancelled, ..before })
}

/// What a cancellation returns: the refusal, or else the audit record,
/// which names all that player A has on the books as the refund.
pub open spec fn spec_cancel_result(
    stake_state: MatchStakeState,
    player: PlayerKey,
    current_ts: i64,
) -> Result<MatchCancelledEvent, DroogError> {
    match spec_cancel_refusal(stake_state, player, current_ts) {
        Some(refusal) => Err(refusal),
        None => Ok(
            MatchCancelledEvent {
                match_id: stake_state.match_id,
                player_a: stake_state.player_a,
                amount_refunded: stake_state.player_a_escrowed,
                timestamp: current_ts,
            },
        ),
    }
}

/// Player A cancels a match that player B never joined.
///
/// Cancelling goes through only for the player A named in the record, while
/// the stake is pending and player B has not staked, and once the timeout
/// has passed since player A staked. Nothing was burned, so all that player
/// A put in goes back: `amount_refunded` of the audit record is what the
/// caller moves from escrow to player A. A refused cancellation changes
/// nothing.
pub fn cancel_match(
    stake_state: &mut MatchStakeState,
    player: &PlayerKey,
    current_ts: i64,
) -> (result: Result<MatchCancelledEvent, DroogError>)
    ensures
        result == spec_cancel_result(*old(stake_state), *player, current_ts),
        result is Err ==> *final(stake_state) == *old(stake_state),
        result is Ok ==> spec_is_cancellation_of(*final(stake_state), *old(stake_state)),
        result is Ok ==> old(stake_state).status.spec_may_become(final(stake_state).status),
        result is Ok <==> old(stake_state).player_a == *player && old(stake_state).spec_can_cancel(
            current_ts,
        ),
        old(stake_state).wf() ==> final(stake_state).wf(),
{
    if !stake_state.player_a.same_as(player) {
        return Err(DroogError::InvalidPlayer);
    }
    if stake_state.status != MatchStatus::Pending {
        return Err(DroogError::MatchNotPending);
    }
    if stake_state.player_b_escrowed != 0 {
        return Err(DroogError::PlayerBAlreadyJoined);
    }
    if (current_ts as i128) < (stake_state.created_at as i128) + (CANCEL_TIMEOUT_SECONDS as i128) {
        return Err(DroogError::CancelTooEarly);
    }
    let refund_amount: u64 = stake_state.player_a_escrowed;
    stake_state.status = MatchStatus::Cancelled;
    stake_state.player_a_escrowed = 0;
    Ok(
        MatchCancelledEvent {
            match_id: stake_state.match_id,
            player_a: stake_state.player_a,
            amount_refunded: refund_amount,
            timestamp: current_ts,
        },
    )
}

} // verus!
