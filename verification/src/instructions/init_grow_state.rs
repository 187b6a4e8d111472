use crate::errors::DroogError;
use crate::identity::PlayerKey;
use crate::state::grow_state::{GrowSlot, Inventory, MatchGrowState};
use crate::state::match_state::MatchState;
use vstd::prelude::*;

verus! {

/// Audit record: the grow record of a match exists.
#[derive(Clone, Copy, Debug, PartialEq, Eq)]
pub struct GrowStateInitializedEvent {
    pub match_id: u64,
    pub player_a: PlayerKey,
    pub player_b: PlayerKey,
}

/// `grow_state` is the grow record of a match in which nothing has been
/// planted or harvested yet.
pub open spec fn spec_is_new_grow_state(
    grow_state: MatchGrowState,
    match_state: MatchState,
    match_id_hash: [u8; 32],
    bump: u8,
) -> bool {
    &&& grow_state.match_id == match_state.match_id
    &&& grow_state.match_id_hash == match_id_hash
    &&& grow_state.player_a == match_state.player_a
    &&& grow_state.player_b == match_state.player_b
    &&& forall|i: int| 0 <= i < 6 ==> #[trigger] grow_state.player_a_slots@[i] == GrowSlot::spec_fresh()
    &&& forall|i: int| 0 <= i < 6 ==> #[trigger] grow_state.player_b_slots@[i] == GrowSlot::spec_fresh()
    &&& grow_state.player_a_inventory == Inventory::spec_empty()
    &&& grow_state.player_b_inventory == Inventory::spec_empty()
    &&& grow_state.bump == bump
}

/// Sets up the grow record of a match: the players of the match, twelve
/// slots that were never planted, and two empty inventories.
///
/// It is refused, as a mismatch, where `match_id` is not the identifier of
/// `match_state`, and for nothing else.
pub fn init_grow_state(
    match_state: &MatchState,
    match_id_hash: [u8; 32],
    match_id: u64,
    bump: u8,
) -> (result: Result<(MatchGrowState, GrowStateInitializedEvent), DroogError>)
    ensures
        match_state.match_id != match_id ==> result == Err::<
            (MatchGrowState, GrowStateInitializedEvent),
            DroogError,
        >(DroogError::MatchIdMismatch),
        match_state.match_id == match_id ==> result is Ok,
        result is Ok ==> spec_is_new_grow_state(
            result->Ok_0.0,
            *match_state,
            match_id_hash,
            bump,
        ),
        result is Ok ==> result->Ok_0.0.wf(),
        result is Ok ==> result->Ok_0.1.match_id == match_id && result->Ok_0.1.player_a
            == match_state.player_a && result->Ok_0.1.player_b == match_state.player_b,
{
    if match_state.match_id != match_id {
        return Err(DroogError::MatchIdMismatch);
    }
    let fresh = GrowSlot::default();
    let grow_state = MatchGrowState {
        match_id,
        match_id_hash,
        player_a: match_state.player_a,
        player_b: match_state.player_b,
        player_a_slots: [fresh;6],
        player_b_slots: [fresh;6],
        player_a_inventory: Inventory::default(),
        player_b_inventory: Inventory::default(),
        bump,
    };
    let event = GrowStateInitializedEvent {
        match_id,
        player_a: match_state.player_a,
        player_b: match_state.player_b,
    };
    Ok((grow_state, event))
}

} // verus!
