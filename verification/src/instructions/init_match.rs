use crate::errors::DroogError;
use crate::identity::PlayerKey;
use crate::mixing::{le_u64, spec_le_u64};
use crate::state::customer_state::{spec_layer_of, CustomerState};
use crate::state::match_state::{MatchState, MATCH_DURATION_SECONDS};
use crate::state::stake_state::{
    MatchStakeInitializedEvent, MatchStakeState, MatchStatus, STAKE_AMOUNT,
};
use vstd::prelude::*;

verus! {

/// How far ahead of the clock a match may be set to start.
pub const START_LEAD_SECONDS: i64 = 60;

/// The address bumps of the records that come into being with a match. The
/// storage layer finds them; they are carried in the records.
#[derive(Clone, Copy, Debug, PartialEq, Eq, Structural)]
pub struct InitMatchBumps {
    pub match_state: u8,
    pub stake_state: u8,
    pub escrow_token_account: u8,
}

/// The identifier of a match: the one given, or else the first eight bytes
/// of the 32-byte form, read as a little-endian number.
pub open spec fn spec_match_id(match_id_hash: [u8; 32], match_id: Option<u64>) -> u64 {
    match match_id {
        Some(id) => id,
        None => spec_le_u64(match_id_hash@, 0),
    }
}

/// Why a match is not set up, if it is not. The reasons are asked in this
/// order, and the first that holds is the one reported.
pub open spec fn spec_init_match_refusal(
    start_ts: i64,
    player_a: PlayerKey,
    player_b: PlayerKey,
    player_a_balance: u64,
    current_ts: i64,
) -> Option<DroogError> {
    if !player_a.spec_precedes(player_b) {
        Some(DroogError::InvalidPlayerOrder)
    } else if start_ts > current_ts + START_LEAD_SECONDS {
        Some(DroogError::MatchNotStarted)
    } else if player_a_balance < STAKE_AMOUNT {
        Some(DroogError::InsufficientStakeBalance)
    } else if start_ts + MATCH_DURATION_SECONDS > i64::MAX {
        Some(DroogError::CalculationOverflow)
    } else {
        None
    }
}

/// A customer that nobody has sold to yet.
pub open spec fn spec_fresh_customer(customer_index: int) -> CustomerState {
    CustomerState {
        layer: spec_layer_of(customer_index as u8),
        last_served_ts: 0,
        total_serves: 0,
        last_served_by: None,
    }
}

/// `match_state` is the record of a match that has just been set up.
pub open spec fn spec_is_new_match(
    match_state: MatchState,
    match_id_hash: [u8; 32],
    match_id: u64,
    start_ts: i64,
    player_a: PlayerKey,
    player_b: PlayerKey,
    bump: u8,
) -> bool {
    &&& match_state.match_id == match_id
    &&& match_state.match_id_hash == match_id_hash
    &&& match_state.start_ts == start_ts
    &&& match_state.end_ts == start_ts + MATCH_DURATION_SECONDS
    &&& match_state.player_a == player_a
    &&& match_state.player_b == player_b
    &&& forall|i: int| 0 <= i < 23 ==> #[trigger] match_state.customers@[i] == spec_fresh_customer(i)
    &&& match_state.player_a_sales == 0
    &&& match_state.player_b_sales == 0
    &&& match_state.player_a_reputation == 0
    &&& match_state.player_b_reputation == 0
    &&& !match_state.is_finalized
    &&& match_state.bump == bump
}

/// The stake record of a match that has just been set up: pending, with
/// player A's stake on the books and nothing of player B.
pub open spec fn spec_new_stake(
    match_id_hash: [u8; 32],
    match_id: u64,
    player_a: PlayerKey,
    player_b: PlayerKey,
    current_ts: i64,
    bumps: InitMatchBumps,
) -> MatchStakeState {
    MatchStakeState {
        match_id,
        match_id_hash,
        player_a,
        player_b,
        status: MatchStatus::Pending,
        player_a_escrowed: STAKE_AMOUNT,
        player_b_escrowed: 0,
        created_at: current_ts,
        bump: bumps.stake_state,
        escrow_bump: bumps.escrow_token_account,
    }
}

/// The audit record of the set-up of a match.
pub open spec fn spec_init_match_event(
    match_id: u64,
    player_a: PlayerKey,
    player_b: PlayerKey,
    current_ts: i64,
) -> MatchStakeInitializedEvent {
    MatchStakeInitializedEvent {
        match_id,
        player_a,
        player_b,
        amount_escrowed: STAKE_AMOUNT,
        timestamp: current_ts,
    }
}

/// Sets up a match and its stake, with player A's stake in escrow.
///
/// The match is set up only for two players of whom A has the lower key,
/// with a start no further ahead of the clock than the lead allows, and
/// where player A's balance covers the stake. It runs from `start_ts` for
/// the length of a match; its customers are unserved, its tallies zero. The
/// stake is pending: it notes player A's amount and the time, and nothing is
/// burned. `amount_escrowed` of the audit record is what the caller moves
/// from player A into escrow.
pub fn init_match(
    match_id_hash: [u8; 32],
    match_id: Option<u64>,
    start_ts: i64,
    player_a: &PlayerKey,
    player_b: &PlayerKey,
    player_a_balance: u64,
    current_ts: i64,
    bumps: InitMatchBumps,
) -> (result: Result<(MatchState, MatchStakeState, MatchStakeInitializedEvent), DroogError>)
    ensures
        match spec_init_match_refusal(start_ts, *player_a, *player_b, player_a_balance, current_ts) {
            Some(refusal) => result == Err::<
                (MatchState, MatchStakeState, MatchStakeInitializedEvent),
                DroogError,
            >(refusal),
            None => result is Ok,
        },
        result is Ok ==> spec_is_new_match(
            result->Ok_0.0,
            match_id_hash,
            spec_match_id(match_id_hash, match_id),
            start_ts,
            *player_a,
            *player_b,
            bumps.match_state,
        ),
        result is Ok ==> result->Ok_0.1 == spec_new_stake(
            match_id_hash,
            spec_match_id(match_id_hash, match_id),
            *player_a,
            *player_b,
            current_ts,
            bumps,
        ),
        result is Ok ==> result->Ok_0.2 == spec_init_match_event(
            spec_match_id(match_id_hash, match_id),
            *player_a,
            *player_b,
            current_ts,
        ),
        result is Ok ==> result->Ok_0.0.wf() && result->Ok_0.1.wf(),
{
    if !player_a.precedes(player_b) {
        return Err(DroogError::InvalidPlayerOrder);
    }
    if (start_ts as i128) > (current_ts as i128) + (START_LEAD_SECONDS as i128) {
        return Err(DroogError::MatchNotStarted);
    }
    if player_a_balance < STAKE_AMOUNT {
        return Err(DroogError::InsufficientStakeBalance);
    }
    let end_ts: i64 = match start_ts.checked_add(MATCH_DURATION_SECONDS) {
        Some(end) => end,
        None => {
            return Err(DroogError::CalculationOverflow);
        },
    };
    let derived_match_id: u64 = match match_id {
        Some(id) => id,
        None => le_u64(&match_id_hash, 0),
    };
    let blank = CustomerState { layer: 0, last_served_ts: 0, total_serves: 0, last_served_by: None };
    let mut customers: [CustomerState; 23] = [blank;23];
    let mut i: usize = 0;
    while i < 23
        invariant
            i <= 23,
            forall|j: int| 0 <= j < i ==> #[trigger] customers@[j] == spec_fresh_customer(j),
        decreases 23 - i,
    {
        customers[i] = CustomerState {
            layer: MatchState::layer_from_index(i as u8),
            last_served_ts: 0,
            total_serves: 0,
            last_served_by: None,
        };
        i += 1;
    }
    let match_state = MatchState {
        match_id: derived_match_id,
        match_id_hash,
        start_ts,
        end_ts,
        player_a: *player_a,
        player_b: *player_b,
        customers,
        player_a_sales: 0,
        player_b_sales: 0,
        player_a_reputation: 0,
        player_b_reputation: 0,
        is_finalized: false,
        bump: bumps.match_state,
    };
    let stake_state = MatchStakeState {
        match_id: derived_match_id,
        match_id_hash,
        player_a: *player_a,
        player_b: *player_b,
        status: MatchStatus::Pending,
        player_a_escrowed: STAKE_AMOUNT,
        player_b_escrowed: 0,
        created_at: current_ts,
        bump: bumps.stake_state,
        escrow_bump: bumps.escrow_token_account,
    };
    let event = MatchStakeInitializedEvent {
        match_id: derived_match_id,
        player_a: *player_a,
        player_b: *player_b,
        amount_escrowed: STAKE_AMOUNT,
        timestamp: current_ts,
    };
    Ok((match_state, stake_state, event))
}

} // verus!
