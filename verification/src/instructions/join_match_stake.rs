use crate::errors::DroogError;
use crate::identity::PlayerKey;
use crate::state::stake_state::{MatchActivatedEvent, MatchStakeState, MatchStatus, STAKE_AMOUNT};
use vstd::prelude::*;

verus! {

/// Why player B's joining is refused, if it is. The reasons are asked in
/// this order, and the first that holds is the one reported.
pub open spec fn spec_join_refusal(
    stake_state: MatchStakeState,
    player: PlayerKey,
    player_balance: u64,
) -> Option<DroogError> {
    if stake_state.player_b != player {
        Some(DroogError::InvalidPlayer)
    } else if stake_state.status != MatchStatus::Pending {
        Some(DroogError::MatchNotPending)
    } else if stake_state.player_b_escrowed != 0 {
        Some(DroogError::AlreadyStaked)
    } else if player_balance < STAKE_AMOUNT {
        Some(DroogError::InsufficientStakeBalance)
    } else if stake_state.player_a_escrowed + STAKE_AMOUNT > u64::MAX {
        Some(DroogError::CalculationOverflow)
    } else {
        None
    }
}

/// `after` is `before` with player B's stake on the books and the status
/// active.
pub open spec fn spec_is_activation_of(after: MatchStakeState, before: MatchStakeState) -> bool {
    after == (MatchStakeState {
        player_b_escrowed: STAKE_AMOUNT,
        status: MatchStatus::Active,
        ..before
    })
}

/// The audit record of player B's joining at `current_ts`.
pub open spec fn spec_join_event(stake_state: MatchStakeState, current_ts: i64) -> MatchActivatedEvent {
    let total = (stake_state.player_a_escrowed + STAKE_AMOUNT) as u64;
    MatchActivatedEvent {
        match_id: stake_state.match_id,
        player_a: stake_state.player_a,
        player_b: stake_state.player_b,
        total_escrowed: total,
        amount_burned: MatchStakeState::spec_burn_amount(total) as u64,
        final_pot: (total - MatchStakeState::spec_burn_amount(total)) as u64,
        timestamp: current_ts,
    }
}

/// What player B's joining returns: the refusal, or else the audit record.
pub open spec fn spec_join_result(
    stake_state: MatchStakeState,
    player: PlayerKey,
    player_balance: u64,
    current_ts: i64,
) -> Result<MatchActivatedEvent, DroogError> {
    match spec_join_refusal(stake_state, player, player_balance) {
        Some(refusal) => Err(refusal),
        None => Ok(spec_join_event(stake_state, current_ts)),
    }
}

/// Player B joins the match with the stake.
///
/// Joining goes through only for the player B named in the record, while
/// the stake is pending and player B has not staked, and with a balance that
/// covers the stake. It is the one step of commitment: the record notes
/// player B's stake and becomes active, and the audit record tells the
/// caller what to move in that same step: the stake from player B into
/// escrow, and `amount_burned`, the burn share of both stakes rounded down,
/// out of escrow for good; `final_pot` is what then remains. A refused
/// joining changes nothing, and neither moves nor burns anything.
pub fn join_match_with_stake(
    stake_state: &mut MatchStakeState,
    player: &PlayerKey,
    player_balance: u64,
    current_ts: i64,
) -> (result: Result<MatchActivatedEvent, DroogError>)
    ensures
        result == spec_join_result(*old(stake_state), *player, player_balance, current_ts),
        result is Err ==> *final(stake_state) == *old(stake_state),
        result is Ok ==> spec_is_activation_of(*final(stake_state), *old(stake_state)),
        result is Ok ==> old(stake_state).status.spec_may_become(final(stake_state).status),
        result is Ok ==> result->Ok_0.amount_burned + result->Ok_0.final_pot
            == result->Ok_0.total_escrowed,
        old(stake_state).wf() ==> final(stake_state).wf(),
        old(stake_state).wf() && result is Ok ==> result->Ok_0.total_escrowed == 2 * STAKE_AMOUNT
            && result->Ok_0.amount_burned == 200_000 && result->Ok_0.final_pot == 1_800_000,
{
    if !stake_state.player_b.same_as(player) {
        return Err(DroogError::InvalidPlayer);
    }
    if stake_state.status != MatchStatus::Pending {
        return Err(DroogError::MatchNotPending);
    }
    if stake_state.player_b_escrowed != 0 {
        return Err(DroogError::AlreadyStaked);
    }
    if player_balance < STAKE_AMOUNT {
        return Err(DroogError::InsufficientStakeBalance);
    }
    let total_escrowed: u64 = match stake_state.player_a_escrowed.checked_add(STAKE_AMOUNT) {
        Some(total) => total,
        None => {
            return Err(DroogError::CalculationOverflow);
        },
    };
    let burn_amount: u64 = MatchStakeState::calculate_burn_amount(total_escrowed);
    let final_pot: u64 = total_escrowed - burn_amount;

    stake_state.player_b_escrowed = STAKE_AMOUNT;
    stake_state.status = MatchStatus::Active;
    Ok(
        MatchActivatedEvent {
            match_id: stake_state.match_id,
            player_a: stake_state.player_a,
            player_b: stake_state.player_b,
            total_escrowed,
            amount_burned: burn_amount,
            final_pot,
            timestamp: current_ts,
        },
    )
}

} // verus!
