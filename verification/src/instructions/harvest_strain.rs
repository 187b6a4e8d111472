use crate::errors::DroogError;
use crate::identity::PlayerKey;
use crate::state::grow_state::{GrowSlot, Inventory, MatchGrowState, PlantState};
use crate::state::match_state::MatchState;
use vstd::prelude::*;

verus! {

/// Audit record of one harvest.
#[derive(Clone, Copy, Debug, PartialEq, Eq)]
pub struct HarvestStrainEvent {
    /// Identifier of the match.
    pub match_id: u64,
    /// The player who harvested.
    pub player: PlayerKey,
    /// The slot harvested from.
    pub slot_index: u8,
    /// Level of the harvested plant.
    pub strain_level: u8,
    /// Variant of the harvested plant.
    pub variant_id: u8,
    /// Time of the harvest.
    pub harvested_ts: i64,
    /// Units of the level in the player's inventory after the harvest.
    pub new_inventory_count: u8,
    /// Units of all levels in the player's inventory after the harvest.
    pub total_inventory: u8,
}

/// The level of the plant that is ready in `slot` at `current_ts`, if one
/// is. The slot is read as it stands at that time: a growing plant whose
/// growth time has elapsed is ready.
pub open spec fn spec_ready_level(slot: GrowSlot, current_ts: i64) -> Option<u8> {
    match slot.spec_advanced(current_ts).plant_state {
        PlantState::Ready { strain_level } => Some(strain_level),
        _ => None,
    }
}

/// Why a harvest is refused, if it is. The reasons are asked in this order,
/// and the first that holds is the one reported.
pub open spec fn spec_harvest_refusal(
    grow_state: MatchGrowState,
    match_state: MatchState,
    player: PlayerKey,
    current_ts: i64,
    slot_index: u8,
) -> Option<DroogError> {
    let for_a = grow_state.spec_is_player_a(player);
    if grow_state.match_id != match_state.match_id {
        Some(DroogError::MatchIdMismatch)
    } else if match_state.spec_play_refusal(current_ts) is Some {
        match_state.spec_play_refusal(current_ts)
    } else if slot_index >= 6 {
        Some(DroogError::InvalidSlotIndex)
    } else if !grow_state.spec_is_participant(player) {
        Some(DroogError::InvalidPlayer)
    } else {
        match grow_state.spec_slots_of(for_a)[slot_index as int].spec_advanced(
            current_ts,
        ).plant_state {
            PlantState::Empty => Some(DroogError::SlotEmpty),
            PlantState::Growing { .. } => Some(DroogError::GrowthTimeNotElapsed),
            PlantState::Ready { .. } => if grow_state.spec_inventory_of(for_a).spec_total() >= 6 {
                Some(DroogError::InventoryFull)
            } else {
                None
            },
        }
    }
}

/// A slot after its plant was harvested at `current_ts`: empty, with the
/// time noted; level and variant of the plant stay on record.
pub open spec fn spec_harvested_slot(slot: GrowSlot, current_ts: i64) -> GrowSlot {
    GrowSlot { plant_state: PlantState::Empty, last_harvested_ts: current_ts, ..slot }
}

/// The player's inventory after the harvest from `slot_index`.
pub open spec fn spec_inventory_after_harvest(
    grow_state: MatchGrowState,
    player: PlayerKey,
    current_ts: i64,
    slot_index: u8,
) -> Inventory {
    let for_a = grow_state.spec_is_player_a(player);
    let slot = grow_state.spec_slots_of(for_a)[slot_index as int];
    grow_state.spec_inventory_of(for_a).spec_incremented(spec_ready_level(slot, current_ts)->0)
}

/// The audit record of a harvest.
pub open spec fn spec_harvest_event(
    grow_state: MatchGrowState,
    player: PlayerKey,
    current_ts: i64,
    slot_index: u8,
) -> HarvestStrainEvent {
    let for_a = grow_state.spec_is_player_a(player);
    let slot = grow_state.spec_slots_of(for_a)[slot_index as int];
    let level = spec_ready_level(slot, current_ts)->0;
    let inventory = spec_inventory_after_harvest(grow_state, player, current_ts, slot_index);
    HarvestStrainEvent {
        match_id: grow_state.match_id,
        player,
        slot_index,
        strain_level: level,
        variant_id: slot.variant_id,
        harvested_ts: current_ts,
        new_inventory_count: inventory.spec_count(level) as u8,
        total_inventory: inventory.spec_total() as u8,
    }
}

/// What a harvest returns: the refusal, or else the audit record.
pub open spec fn spec_harvest_result(
    grow_state: MatchGrowState,
    match_state: MatchState,
    player: PlayerKey,
    current_ts: i64,
    slot_index: u8,
) -> Result<HarvestStrainEvent, DroogError> {
    match spec_harvest_refusal(grow_state, match_state, player, current_ts, slot_index) {
        Some(refusal) => Err(refusal),
        None => Ok(spec_harvest_event(grow_state, player, current_ts, slot_index)),
    }
}

/// `after` is `before` with the player's slot harvested and the unit in the
/// player's inventory, and nothing else changed.
pub open spec fn spec_is_harvest_of(
    after: MatchGrowState,
    before: MatchGrowState,
    player: PlayerKey,
    current_ts: i64,
    slot_index: u8,
) -> bool {
    let for_a = before.spec_is_player_a(player);
    let slots = before.spec_slots_of(for_a);
    after.spec_updates(
        before,
        for_a,
        slots.update(slot_index as int, spec_harvested_slot(slots[slot_index as int], current_ts)),
        spec_inventory_after_harvest(before, player, current_ts, slot_index),
    )
}

/// Harvests the plant in `player`'s slot `slot_index`.
///
/// The harvest goes through only while the match is open, for one of the two
/// players, on a slot whose plant is ready at `current_ts`, and into an
/// inventory with space. It then moves one unit of the plant's level into
/// the inventory and empties the slot, which notes the time. A refused
/// harvest changes nothing: neither the slot nor the inventory.
pub fn harvest_strain(
    grow_state: &mut MatchGrowState,
    match_state: &MatchState,
    player: &PlayerKey,
    current_ts: i64,
    slot_index: u8,
) -> (result: Result<HarvestStrainEvent, DroogError>)
    ensures
        result == spec_harvest_result(
            *old(grow_state),
            *match_state,
            *player,
            current_ts,
            slot_index,
        ),
        result is Err ==> *final(grow_state) == *old(grow_state),
        result is Ok ==> spec_is_harvest_of(
            *final(grow_state),
            *old(grow_state),
            *player,
            current_ts,
            slot_index,
        ),
        old(grow_state).wf() ==> final(grow_state).wf(),
        match_state.is_finalized ==> result is Err,
{
    if grow_state.match_id != match_state.match_id {
        return Err(DroogError::MatchIdMismatch);
    }
    match match_state.check_play_open(current_ts) {
        Err(e) => {
            return Err(e);
        },
        Ok(_) => {},
    }
    if (slot_index as usize) >= 6 {
        return Err(DroogError::InvalidSlotIndex);
    }
    let is_player_a = player.same_as(&grow_state.player_a);
    let is_player_b = player.same_as(&grow_state.player_b);
    if !(is_player_a || is_player_b) {
        return Err(DroogError::InvalidPlayer);
    }
    let stored: GrowSlot = if is_player_a {
        grow_state.player_a_slots[slot_index as usize]
    } else {
        grow_state.player_b_slots[slot_index as usize]
    };
    let mut slot = stored;
    slot.advance_if_ready(current_ts);
    let strain_level: u8 = match slot.plant_state {
        PlantState::Ready { strain_level } => strain_level,
        PlantState::Empty => {
            return Err(DroogError::SlotEmpty);
        },
        PlantState::Growing { .. } => {
            return Err(DroogError::GrowthTimeNotElapsed);
        },
    };
    let variant_id: u8 = slot.variant_id;
    let mut inventory = if is_player_a {
        grow_state.player_a_inventory
    } else {
        grow_state.player_b_inventory
    };
    if !inventory.has_space() {
        return Err(DroogError::InventoryFull);
    }
    inventory.increment(strain_level);
    let new_inventory_count: u8 = inventory.get(strain_level);
    let total_inventory: u8 = inventory.total();

    slot.plant_state = PlantState::Empty;
    slot.last_harvested_ts = current_ts;
    if is_player_a {
        grow_state.player_a_inventory = inventory;
        grow_state.player_a_slots[slot_index as usize] = slot;
    } else {
        grow_state.player_b_inventory = inventory;
        grow_state.player_b_slots[slot_index as usize] = slot;
    }
    Ok(
        HarvestStrainEvent {
            match_id: grow_state.match_id,
            player: *player,
            slot_index,
            strain_level,
            variant_id,
            harvested_ts: current_ts,
            new_inventory_count,
            total_inventory,
        },
    )
}

/// A slot without a ready plant is never harvested, and the attempt leaves
/// slots and inventories as they are. Where nothing else stands against the
/// harvest, an empty slot is refused as empty, and a plant that is still
/// growing at `current_ts` for its growth time not having elapsed.
pub proof fn lemma_unready_slot_is_refused(
    grow_state: MatchGrowState,
    match_state: MatchState,
    player: PlayerKey,
    current_ts: i64,
    slot_index: u8,
)
    requires
        slot_index < 6,
        spec_ready_level(
            grow_state.spec_slots_of(grow_state.spec_is_player_a(player))[slot_index as int],
            current_ts,
        ) is None,
    ensures
        spec_harvest_result(grow_state, match_state, player, current_ts, slot_index) is Err,
        grow_state.match_id == match_state.match_id && match_state.spec_play_refusal(current_ts)
            is None && grow_state.spec_is_participant(player) ==> spec_harvest_result(
            grow_state,
            match_state,
            player,
            current_ts,
            slot_index,
        ) == Err::<HarvestStrainEvent, DroogError>(
            if grow_state.spec_slots_of(
                grow_state.spec_is_player_a(player),
            )[slot_index as int].plant_state is Empty {
                DroogError::SlotEmpty
            } else {
                DroogError::GrowthTimeNotElapsed
            },
        ),
{
}

} // verus!
