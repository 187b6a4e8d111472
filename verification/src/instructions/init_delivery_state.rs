use crate::errors::DroogError;
use crate::state::delivery_state::{spec_rotation_bucket, MatchDeliveryState};
use crate::state::match_state::MatchState;
use vstd::prelude::*;

verus! {

/// Audit record: the delivery record of a match exists, with its first
/// spots.
#[derive(Clone, Copy, Debug, PartialEq, Eq)]
pub struct DeliveryStateInitializedEvent {
    /// Identifier of the match.
    pub match_id: u64,
    /// The five places.
    pub initial_spots: [u8; 5],
    /// How many of them are in use.
    pub active_count: u8,
    /// Number of the rotation.
    pub rotation_bucket: u64,
    /// Time of the set-up.
    pub timestamp: i64,
}

/// `event` is the audit record of the set-up of `delivery_state` at
/// `current_ts`.
pub open spec fn spec_is_delivery_init_event(
    event: DeliveryStateInitializedEvent,
    delivery_state: MatchDeliveryState,
    current_ts: i64,
) -> bool {
    &&& event.match_id == delivery_state.match_id
    &&& event.initial_spots == delivery_state.available_customers
    &&& event.active_count == delivery_state.active_count
    &&& event.rotation_bucket == spec_rotation_bucket(current_ts)
    &&& event.timestamp == current_ts
}

/// Sets up the delivery record of a match, with the spots of the rotation
/// that `current_ts` falls into.
///
/// It is refused, as a mismatch, where `match_id` is not the identifier of
/// `match_state`, and for nothing else.
pub fn init_delivery_state(
    match_state: &MatchState,
    match_id: u64,
    current_ts: i64,
    bump: u8,
) -> (result: Result<(MatchDeliveryState, DeliveryStateInitializedEvent), DroogError>)
    ensures
        match_state.match_id != match_id ==> result == Err::<
            (MatchDeliveryState, DeliveryStateInitializedEvent),
            DroogError,
        >(DroogError::MatchIdMismatch),
        match_state.match_id == match_id ==> result is Ok,
        result is Ok ==> result->Ok_0.0.match_id == match_id && result->Ok_0.0.bump == bump,
        result is Ok ==> result->Ok_0.0.spec_holds_rotation(current_ts),
        result is Ok ==> result->Ok_0.0.wf(),
        result is Ok ==> spec_is_delivery_init_event(result->Ok_0.1, result->Ok_0.0, current_ts),
{
    if match_state.match_id != match_id {
        return Err(DroogError::MatchIdMismatch);
    }
    let seed: u64 = MatchDeliveryState::compute_delivery_seed(match_id, current_ts);
    let (spots, count) = MatchDeliveryState::select_delivery_spots(seed);
    let delivery_state = MatchDeliveryState {
        match_id,
        last_update_ts: current_ts,
        available_customers: spots,
        active_count: count,
        bump,
    };
    let event = DeliveryStateInitializedEvent {
        match_id,
        initial_spots: spots,
        active_count: count,
        rotation_bucket: MatchDeliveryState::get_rotation_bucket(current_ts),
        timestamp: current_ts,
    };
    Ok((delivery_state, event))
}

} // verus!
