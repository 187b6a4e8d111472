use crate::errors::DroogError;
use crate::identity::PlayerKey;
use crate::mixing::{as_unsigned, spec_as_unsigned};
use crate::state::grow_state::{GrowSlot, MatchGrowState, PlantState};
use crate::state::match_state::MatchState;
use vstd::prelude::*;

verus! {

/// Audit record of one planting.
#[derive(Clone, Copy, Debug, PartialEq, Eq)]
pub struct PlantStrainEvent {
    /// Identifier of the match.
    pub match_id: u64,
    /// The player who planted.
    pub player: PlayerKey,
    /// The slot planted in.
    pub slot_index: u8,
    /// Level of the plant.
    pub strain_level: u8,
    /// Variant assigned to the plant.
    pub variant_id: u8,
    /// Time of the planting.
    pub planted_ts: i64,
}

/// Why a planting is refused, if it is. The reasons are asked in this order,
/// and the first that holds is the one reported.
pub open spec fn spec_plant_refusal(
    grow_state: MatchGrowState,
    match_state: MatchState,
    player: PlayerKey,
    current_ts: i64,
    slot_index: u8,
    strain_level: u8,
) -> Option<DroogError> {
    let for_a = grow_state.spec_is_player_a(player);
    if grow_state.match_id != match_state.match_id {
        Some(DroogError::MatchIdMismatch)
    } else if match_state.spec_play_refusal(current_ts) is Some {
        match_state.spec_play_refusal(current_ts)
    } else if !MatchGrowState::spec_can_plant(current_ts, match_state.end_ts) {
        Some(DroogError::EndgamePlantingLocked)
    } else if !(1 <= strain_level <= 3) {
        Some(DroogError::InvalidStrainLevel)
    } else if slot_index >= 6 {
        Some(DroogError::InvalidSlotIndex)
    } else if !MatchGrowState::spec_will_be_ready_in_time(
        current_ts,
        match_state.end_ts,
        strain_level,
    ) {
        Some(DroogError::PlantWontBeReady)
    } else if !grow_state.spec_is_participant(player) {
        Some(DroogError::InvalidPlayer)
    } else if !(grow_state.spec_slots_of(for_a)[slot_index as int].plant_state is Empty) {
        Some(DroogError::SlotOccupied)
    } else {
        None
    }
}

/// The variant of a plant put into `slot_index` by `player` at `current_ts`:
/// the time, read as an unsigned number, is the counter.
pub open spec fn spec_planting_variant(
    match_id: u64,
    player: PlayerKey,
    slot_index: u8,
    current_ts: i64,
) -> u8 {
    MatchGrowState::spec_variant_id(match_id, player, slot_index, spec_as_unsigned(current_ts))
}

/// A slot after a plant of `strain_level` and `variant_id` was put into it
/// at `current_ts`. The time of the last harvest stays on record.
pub open spec fn spec_planted_slot(
    slot: GrowSlot,
    strain_level: u8,
    variant_id: u8,
    current_ts: i64,
) -> GrowSlot {
    GrowSlot {
        plant_state: PlantState::Growing { strain_level, planted_at: current_ts },
        strain_level,
        variant_id,
        ..slot
    }
}

/// The audit record of a planting.
pub open spec fn spec_plant_event(
    grow_state: MatchGrowState,
    player: PlayerKey,
    current_ts: i64,
    slot_index: u8,
    strain_level: u8,
) -> PlantStrainEvent {
    PlantStrainEvent {
        match_id: grow_state.match_id,
        player,
        slot_index,
        strain_level,
        variant_id: spec_planting_variant(grow_state.match_id, player, slot_index, current_ts),
        planted_ts: current_ts,
    }
}

/// What a planting returns: the refusal, or else the audit record.
pub open spec fn spec_plant_result(
    grow_state: MatchGrowState,
    match_state: MatchState,
    player: PlayerKey,
    current_ts: i64,
    slot_index: u8,
    strain_level: u8,
) -> Result<PlantStrainEvent, DroogError> {
    match spec_plant_refusal(
        grow_state,
        match_state,
        player,
        current_ts,
        slot_index,
        strain_level,
    ) {
        Some(refusal) => Err(refusal),
        None => Ok(spec_plant_event(grow_state, player, current_ts, slot_index, strain_level)),
    }
}

/// `after` is `before` with the plant in the player's slot, and nothing else
/// changed.
pub open spec fn spec_is_planting_of(
    after: MatchGrowState,
    before: MatchGrowState,
    player: PlayerKey,
    current_ts: i64,
    slot_index: u8,
    strain_level: u8,
) -> bool {
    let for_a = before.spec_is_player_a(player);
    let slots = before.spec_slots_of(for_a);
    after.spec_updates(
        before,
        for_a,
        slots.update(
            slot_index as int,
            spec_planted_slot(
                slots[slot_index as int],
                strain_level,
                spec_planting_variant(before.match_id, player, slot_index, current_ts),
                current_ts,
            ),
        ),
        before.spec_inventory_of(for_a),
    )
}

/// Plants a strain of `strain_level` in `player`'s slot `slot_index`.
///
/// The planting goes through only while the match is open and not in its
/// closing window, for a level from 1 to 3 that is ready by the end of the
/// match, for one of the two players, and in an empty slot. The slot then
/// holds a growing plant with the time of planting and its variant. A
/// refused planting changes nothing.
pub fn plant_strain(
    grow_state: &mut MatchGrowState,
    match_state: &MatchState,
    player: &PlayerKey,
    current_ts: i64,
    slot_index: u8,
    strain_level: u8,
) -> (result: Result<PlantStrainEvent, DroogError>)
    ensures
        result == spec_plant_result(
            *old(grow_state),
            *match_state,
            *player,
            current_ts,
            slot_index,
            strain_level,
        ),
        result is Err ==> *final(grow_state) == *old(grow_state),
        result is Ok ==> spec_is_planting_of(
            *final(grow_state),
            *old(grow_state),
            *player,
            current_ts,
            slot_index,
            strain_level,
        ),
        old(grow_state).wf() ==> final(grow_state).wf(),
        match_state.is_finalized ==> result is Err,
{
    if grow_state.match_id != match_state.match_id {
        return Err(DroogError::MatchIdMismatch);
    }
    match match_state.check_play_open(current_ts) {
        Err(e) => {
            return Err(e);
        },
        Ok(_) => {},
    }
    if !MatchGrowState::can_plant(current_ts, match_state.end_ts) {
        return Err(DroogError::EndgamePlantingLocked);
    }
    if !(strain_level >= 1 && strain_level <= 3) {
        return Err(DroogError::InvalidStrainLevel);
    }
    if (slot_index as usize) >= 6 {
        return Err(DroogError::InvalidSlotIndex);
    }
    if !MatchGrowState::will_be_ready_in_time(current_ts, match_state.end_ts, strain_level) {
        return Err(DroogError::PlantWontBeReady);
    }
    let is_player_a = player.same_as(&grow_state.player_a);
    let is_player_b = player.same_as(&grow_state.player_b);
    if !(is_player_a || is_player_b) {
        return Err(DroogError::InvalidPlayer);
    }
    let match_id: u64 = grow_state.match_id;
    let variant_id: u8 = MatchGrowState::compute_variant_id(
        match_id,
        player,
        slot_index,
        as_unsigned(current_ts),
    );
    let mut slot: GrowSlot = if is_player_a {
        grow_state.player_a_slots[slot_index as usize]
    } else {
        grow_state.player_b_slots[slot_index as usize]
    };
    if !MatchGrowState::is_slot_available(&slot) {
        return Err(DroogError::SlotOccupied);
    }
    slot.plant_state = PlantState::Growing { strain_level, planted_at: current_ts };
    slot.strain_level = strain_level;
    slot.variant_id = variant_id;
    if is_player_a {
        grow_state.player_a_slots[slot_index as usize] = slot;
    } else {
        grow_state.player_b_slots[slot_index as usize] = slot;
    }
    Ok(
        PlantStrainEvent {
            match_id,
            player: *player,
            slot_index,
            strain_level,
            variant_id,
            planted_ts: current_ts,
        },
    )
}

/// With the growth times and the closing window as they are, a plant that
/// may be planted is always ready in time: while planting is open, no level
/// is refused for growing too long.
pub proof fn lemma_open_planting_is_ready_in_time(current_ts: i64, end_ts: i64, strain_level: u8)
    requires
        MatchGrowState::spec_can_plant(current_ts, end_ts),
    ensures
        MatchGrowState::spec_will_be_ready_in_time(current_ts, end_ts, strain_level),
{
}

} // verus!
