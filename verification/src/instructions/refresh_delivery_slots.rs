use crate::errors::DroogError;
use crate::state::delivery_state::{spec_rotation_bucket, MatchDeliveryState};
use crate::state::match_state::MatchState;
use vstd::prelude::*;

verus! {

/// Audit record of one rotation of the delivery spots.
#[derive(Clone, Copy, Debug, PartialEq, Eq)]
pub struct DeliveryRotationEvent {
    /// Identifier of the match.
    pub match_id: u64,
    /// The five places before the rotation.
    pub previous_spots: [u8; 5],
    /// How many of them were in use.
    pub previous_count: u8,
    /// The five places after the rotation.
    pub new_spots: [u8; 5],
    /// How many of them are in use.
    pub new_count: u8,
    /// Number of the rotation.
    pub rotation_bucket: u64,
    /// Time of the rotation.
    pub timestamp: i64,
    /// Time left until the match ends.
    pub remaining_match_time: i64,
}

/// Why a rotation is refused, if it is. The reasons are asked in this order,
/// and the first that holds is the one reported.
pub open spec fn spec_refresh_refusal(
    delivery_state: MatchDeliveryState,
    match_state: MatchState,
    current_ts: i64,
) -> Option<DroogError> {
    if match_state.match_id != delivery_state.match_id {
        Some(DroogError::MatchIdMismatch)
    } else if match_state.spec_play_refusal(current_ts) is Some {
        match_state.spec_play_refusal(current_ts)
    } else if current_ts < delivery_state.last_update_ts + 60 {
        Some(DroogError::DeliveryRotationTooSoon)
    } else if match_state.end_ts - current_ts > i64::MAX {
        Some(DroogError::CalculationOverflow)
    } else {
        None
    }
}

/// `event` is the audit record of the rotation at `current_ts` that made
/// `after` of `before`.
pub open spec fn spec_is_rotation_event(
    event: DeliveryRotationEvent,
    after: MatchDeliveryState,
    before: MatchDeliveryState,
    match_state: MatchState,
    current_ts: i64,
) -> bool {
    &&& event.match_id == before.match_id
    &&& event.previous_spots == before.available_customers
    &&& event.previous_count == before.active_count
    &&& event.new_spots == after.available_customers
    &&& event.new_count == after.active_count
    &&& event.rotation_bucket == spec_rotation_bucket(current_ts)
    &&& event.timestamp == current_ts
    &&& event.remaining_match_time == match_state.end_ts - current_ts
}

/// Rotates the delivery spots of a match.
///
/// Anyone may ask for a rotation; it goes through only while the match is
/// open and once the interval has passed since the last one. The new spots
/// follow from the match and the number of the rotation alone, so that
/// every observer can say which they are. A refused rotation changes
/// nothing.
pub fn refresh_delivery_slots(
    delivery_state: &mut MatchDeliveryState,
    match_state: &MatchState,
    current_ts: i64,
) -> (result: Result<DeliveryRotationEvent, DroogError>)
    ensures
        match spec_refresh_refusal(*old(delivery_state), *match_state, current_ts) {
            Some(refusal) => result == Err::<DeliveryRotationEvent, DroogError>(refusal),
            None => result is Ok,
        },
        result is Err ==> *final(delivery_state) == *old(delivery_state),
        result is Ok ==> final(delivery_state).spec_is_rotation_of(*old(delivery_state), current_ts),
        result is Ok ==> final(delivery_state).wf(),
        result is Ok ==> spec_is_rotation_event(
            result->Ok_0,
            *final(delivery_state),
            *old(delivery_state),
            *match_state,
            current_ts,
        ),
        old(delivery_state).wf() ==> final(delivery_state).wf(),
        match_state.is_finalized ==> result is Err,
        current_ts < old(delivery_state).last_update_ts + 60 ==> result is Err,
{
    if match_state.match_id != delivery_state.match_id {
        return Err(DroogError::MatchIdMismatch);
    }
    match match_state.check_play_open(current_ts) {
        Err(e) => {
            return Err(e);
        },
        Ok(_) => {},
    }
    if !delivery_state.needs_refresh(current_ts) {
        return Err(DroogError::DeliveryRotationTooSoon);
    }
    let remaining_match_time: i64 = match match_state.end_ts.checked_sub(current_ts) {
        Some(remaining) => remaining,
        None => {
            return Err(DroogError::CalculationOverflow);
        },
    };
    let previous_spots: [u8; 5] = delivery_state.available_customers;
    let previous_count: u8 = delivery_state.active_count;

    let seed: u64 = MatchDeliveryState::compute_delivery_seed(delivery_state.match_id, current_ts);
    let (new_spots, new_count) = MatchDeliveryState::select_delivery_spots(seed);

    delivery_state.available_customers = new_spots;
    delivery_state.active_count = new_count;
    delivery_state.last_update_ts = current_ts;
    Ok(
        DeliveryRotationEvent {
            match_id: delivery_state.match_id,
            previous_spots,
            previous_count,
            new_spots,
            new_count,
            rotation_bucket: MatchDeliveryState::get_rotation_bucket(current_ts),
            timestamp: current_ts,
            remaining_match_time,
        },
    )
}

} // verus!
