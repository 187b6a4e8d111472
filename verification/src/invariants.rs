//! What holds across the operations of a match: a match that is closed stays
//! closed, and a stake that is settled stays settled.

use crate::identity::PlayerKey;
use crate::instructions::cancel_match::spec_cancel_refusal;
use crate::instructions::finalize_match::spec_finalize_refusal;
use crate::instructions::harvest::spec_slow_harvest_refusal;
use crate::instructions::harvest_strain::spec_harvest_refusal;
use crate::instructions::join_match_stake::spec_join_refusal;
use crate::instructions::plant_strain::spec_plant_refusal;
use crate::instructions::refresh_delivery_slots::spec_refresh_refusal;
use crate::instructions::sell_to_customer::spec_sale_refusal;
use crate::state::delivery_state::MatchDeliveryState;
use crate::state::grow_state::MatchGrowState;
use crate::state::match_state::{MatchPhase, MatchState};
use crate::state::stake_state::{MatchStakeState, MatchStatus};
use vstd::prelude::*;

verus! {

/// Outside the active phase nothing is played: before the start, from the
/// end on and after finalization, every planting, harvest, sale and rotation
/// is refused, whoever asks and whatever for.
pub proof fn lemma_play_needs_the_active_phase(
    match_state: MatchState,
    grow_state: MatchGrowState,
    delivery_state: MatchDeliveryState,
    player: PlayerKey,
    current_ts: i64,
    index: u8,
    strain_level: u8,
)
    requires
        match_state.spec_phase(current_ts) != MatchPhase::Active,
    ensures
        spec_plant_refusal(grow_state, match_state, player, current_ts, index, strain_level)
            is Some,
        spec_harvest_refusal(grow_state, match_state, player, current_ts, index) is Some,
        spec_sale_refusal(
            match_state,
            grow_state,
            delivery_state,
            player,
            current_ts,
            index,
            strain_level,
        ) is Some,
        spec_refresh_refusal(delivery_state, match_state, current_ts) is Some,
{
}

/// A finalized match is closed for good: at no time is anything played in
/// it, and it is not finalized again.
pub proof fn lemma_finalized_match_stays_closed(
    match_state: MatchState,
    stake_state: MatchStakeState,
    player: PlayerKey,
    payout_owner: PlayerKey,
    planted_at: i64,
    last_harvested_at: Option<i64>,
    current_ts: i64,
    strain_id: u8,
)
    requires
        match_state.is_finalized,
    ensures
        match_state.spec_phase(current_ts) == MatchPhase::Finalized,
        spec_finalize_refusal(match_state, stake_state, player, payout_owner, current_ts) is Some,
        spec_slow_harvest_refusal(match_state, strain_id, planted_at, last_harvested_at, current_ts)
            is Some,
{
}

/// The stake is settled no earlier than the match ends, and only while it is
/// active: a stake that is pending, finalized or cancelled is never paid out.
pub proof fn lemma_no_early_settlement(
    match_state: MatchState,
    stake_state: MatchStakeState,
    player: PlayerKey,
    payout_owner: PlayerKey,
    current_ts: i64,
)
    requires
        current_ts < match_state.end_ts || stake_state.status != MatchStatus::Active,
    ensures
        spec_finalize_refusal(match_state, stake_state, player, payout_owner, current_ts) is Some,
{
}

/// A stake that has left the pending status is neither joined nor cancelled
/// any more: player B joins once, and what is cancelled or paid out stays so.
pub proof fn lemma_stake_leaves_pending_once(
    stake_state: MatchStakeState,
    player: PlayerKey,
    player_balance: u64,
    current_ts: i64,
)
    requires
        stake_state.status != MatchStatus::Pending,
    ensures
        spec_join_refusal(stake_state, player, player_balance) is Some,
        spec_cancel_refusal(stake_state, player, current_ts) is Some,
{
}

} // verus!
