use crate::errors::DroogError;
use crate::identity::PlayerKey;
use crate::state::customer_state::{spec_layer_of, CustomerState};
use crate::state::delivery_state::{spec_rotation_bucket, MatchDeliveryState};
use crate::state::grow_state::MatchGrowState;
use crate::state::match_state::MatchState;
use vstd::prelude::*;

verus! {

/// Audit record of one sale, with all that is needed to replay it.
#[derive(Clone, Copy, Debug, PartialEq, Eq)]
pub struct SaleEvent {
    /// Identifier of the match.
    pub match_id: u64,
    /// The customer sold to.
    pub customer_index: u8,
    /// The customer's layer, as it follows from the index.
    pub customer_layer: u8,
    /// Level of the unit sold.
    pub strain_level: u8,
    /// Variant applied to the sale; 0 where none was found.
    pub variant_id: u8,
    /// The seller.
    pub player: PlayerKey,
    /// Reputation change by layer and level.
    pub base_reputation_delta: i32,
    /// Reputation change by variant.
    pub variant_bonus: i32,
    /// Sum of the two.
    pub total_reputation_delta: i32,
    /// Time of the sale.
    pub timestamp: i64,
    /// Units of the level that the seller has left.
    pub remaining_inventory: u8,
    /// Number of the delivery rotation the sale fell into.
    pub rotation_bucket: u64,
}

/// Reputation change by the variant found for a sale; none where no variant
/// was found.
pub open spec fn spec_variant_bonus(variant: Option<u8>) -> int {
    match variant {
        Some(v) => MatchGrowState::spec_variant_rep_bonus(v),
        None => 0,
    }
}

/// Why a sale is refused, if it is. The reasons are asked in this order, and
/// the first that holds is the one reported.
pub open spec fn spec_sale_refusal(
    match_state: MatchState,
    grow_state: MatchGrowState,
    delivery_state: MatchDeliveryState,
    player: PlayerKey,
    current_ts: i64,
    customer_index: u8,
    strain_level: u8,
) -> Option<DroogError> {
    let for_a = player == match_state.player_a;
    if grow_state.match_id != match_state.match_id || delivery_state.match_id
        != match_state.match_id {
        Some(DroogError::MatchIdMismatch)
    } else if match_state.spec_play_refusal(current_ts) is Some {
        match_state.spec_play_refusal(current_ts)
    } else if customer_index >= 23 {
        Some(DroogError::InvalidCustomerIndex)
    } else if !(1 <= strain_level <= 3) {
        Some(DroogError::InvalidStrainLevel)
    } else if !match_state.spec_is_participant(player) {
        Some(DroogError::InvalidPlayer)
    } else if !delivery_state@.contains(customer_index) {
        Some(DroogError::CustomerNotAvailableForDelivery)
    } else if !match_state.spec_customer_available(customer_index as int, current_ts) {
        Some(DroogError::CustomerOnCooldown)
    } else if !MatchState::spec_layer_accepts(spec_layer_of(customer_index), strain_level) {
        Some(DroogError::InvalidStrainLevel)
    } else if grow_state.spec_inventory_of(for_a).spec_count(strain_level) == 0 {
        Some(DroogError::InsufficientInventory)
    } else if match_state.customers@[customer_index as int].total_serves == u32::MAX
        || match_state.spec_sales_of(for_a) == u32::MAX {
        Some(DroogError::CalculationOverflow)
    } else {
        None
    }
}

/// The audit record of a sale that is not refused.
pub open spec fn spec_sale_event(
    match_state: MatchState,
    grow_state: MatchGrowState,
    player: PlayerKey,
    current_ts: i64,
    customer_index: u8,
    strain_level: u8,
) -> SaleEvent {
    let for_a = player == match_state.player_a;
    let variant = MatchGrowState::spec_variant_for_sale(
        grow_state.spec_slots_of(for_a),
        strain_level,
    );
    let base = MatchState::spec_reputation_change(spec_layer_of(customer_index), strain_level);
    SaleEvent {
        match_id: match_state.match_id,
        customer_index,
        customer_layer: spec_layer_of(customer_index),
        strain_level,
        variant_id: match variant {
            Some(v) => v,
            None => 0,
        },
        player,
        base_reputation_delta: base as i32,
        variant_bonus: spec_variant_bonus(variant) as i32,
        total_reputation_delta: (base + spec_variant_bonus(variant)) as i32,
        timestamp: current_ts,
        remaining_inventory: (grow_state.spec_inventory_of(for_a).spec_count(strain_level)
            - 1) as u8,
        rotation_bucket: spec_rotation_bucket(current_ts),
    }
}

/// What a sale returns: the refusal, or else the audit record.
pub open spec fn spec_sale_result(
    match_state: MatchState,
    grow_state: MatchGrowState,
    delivery_state: MatchDeliveryState,
    player: PlayerKey,
    current_ts: i64,
    customer_index: u8,
    strain_level: u8,
) -> Result<SaleEvent, DroogError> {
    match spec_sale_refusal(
        match_state,
        grow_state,
        delivery_state,
        player,
        current_ts,
        customer_index,
        strain_level,
    ) {
        Some(refusal) => Err(refusal),
        None => Ok(
            spec_sale_event(
                match_state,
                grow_state,
                player,
                current_ts,
                customer_index,
                strain_level,
            ),
        ),
    }
}

/// `after` is the grow record `before` with the sold unit taken out of the
/// seller's inventory, and nothing else changed.
pub open spec fn spec_is_sale_from(
    after: MatchGrowState,
    before: MatchGrowState,
    for_a: bool,
    strain_level: u8,
) -> bool {
    after.spec_updates(
        before,
        for_a,
        before.spec_slots_of(for_a),
        before.spec_inventory_of(for_a).spec_decremented(strain_level),
    )
}

/// Sells one unit of `strain_level` from `player`'s inventory to the customer
/// at `customer_index`.
///
/// The sale goes through only while the match is open, for one of its two
/// players, to a customer of the current delivery rotation who is off
/// cooldown and buys that level, and from an inventory that holds such a
/// unit. It then takes the unit, notes the sale with the customer, counts it
/// for the seller and moves the seller's reputation by the change for layer
/// and level plus that of the variant harvested last, clamped to its range.
/// A refused sale changes nothing.
pub fn sell_to_customer(
    match_state: &mut MatchState,
    grow_state: &mut MatchGrowState,
    delivery_state: &MatchDeliveryState,
    player: &PlayerKey,
    current_ts: i64,
    customer_index: u8,
    strain_level: u8,
) -> (result: Result<SaleEvent, DroogError>)
    ensures
        result == spec_sale_result(
            *old(match_state),
            *old(grow_state),
            *delivery_state,
            *player,
            current_ts,
            customer_index,
            strain_level,
        ),
        result is Err ==> *final(match_state) == *old(match_state),
        result is Err ==> *final(grow_state) == *old(grow_state),
        result is Ok ==> spec_is_sale_from(
            *final(grow_state),
            *old(grow_state),
            *player == old(match_state).player_a,
            strain_level,
        ),
        result is Ok ==> final(match_state).spec_records_sale(
            *old(match_state),
            *player == old(match_state).player_a,
            *player,
            customer_index as int,
            current_ts,
            result->Ok_0.total_reputation_delta as int,
        ),
        result is Ok ==> -4 <= result->Ok_0.total_reputation_delta <= 4,
        old(match_state).wf() ==> final(match_state).wf(),
        old(grow_state).wf() ==> final(grow_state).wf(),
        old(match_state).is_finalized ==> result is Err,
        !delivery_state@.contains(customer_index) ==> result is Err,
        final(match_state).player_a_reputation == old(match_state).player_a_reputation || -1000
            <= final(match_state).player_a_reputation <= 1000,
        final(match_state).player_b_reputation == old(match_state).player_b_reputation || -1000
            <= final(match_state).player_b_reputation <= 1000,
{
    if grow_state.match_id != match_state.match_id || delivery_state.match_id
        != match_state.match_id {
        return Err(DroogError::MatchIdMismatch);
    }
    match match_state.check_play_open(current_ts) {
        Err(e) => {
            return Err(e);
        },
        Ok(_) => {},
    }
    if customer_index >= 23 {
        return Err(DroogError::InvalidCustomerIndex);
    }
    if !(strain_level >= 1 && strain_level <= 3) {
        return Err(DroogError::InvalidStrainLevel);
    }
    let is_player_a = player.same_as(&match_state.player_a);
    let is_player_b = player.same_as(&match_state.player_b);
    if !(is_player_a || is_player_b) {
        return Err(DroogError::InvalidPlayer);
    }
    if !delivery_state.is_customer_available(customer_index) {
        return Err(DroogError::CustomerNotAvailableForDelivery);
    }
    let customer_layer: u8 = MatchState::layer_from_index(customer_index);
    if !match_state.is_customer_available(customer_index as usize, current_ts) {
        return Err(DroogError::CustomerOnCooldown);
    }
    if !match_state.validate_strain_for_customer(customer_index as usize, strain_level) {
        return Err(DroogError::InvalidStrainLevel);
    }
    let variant_id: Option<u8> = if is_player_a {
        MatchGrowState::find_variant_for_sale(&grow_state.player_a_slots, strain_level)
    } else {
        MatchGrowState::find_variant_for_sale(&grow_state.player_b_slots, strain_level)
    };
    let mut inventory = if is_player_a {
        grow_state.player_a_inventory
    } else {
        grow_state.player_b_inventory
    };
    if !inventory.has(strain_level) {
        return Err(DroogError::InsufficientInventory);
    }
    let customer: CustomerState = match_state.customers[customer_index as usize];
    let sales: u32 = if is_player_a {
        match_state.player_a_sales
    } else {
        match_state.player_b_sales
    };
    if customer.total_serves == u32::MAX || sales == u32::MAX {
        return Err(DroogError::CalculationOverflow);
    }
    let burned = inventory.decrement(strain_level);
    assert(burned);
    let remaining_inventory: u8 = inventory.get(strain_level);

    let base_reputation_change: i32 = MatchState::get_reputation_change(
        customer_layer,
        strain_level,
    );
    let variant_bonus: i32 = match variant_id {
        Some(v) => MatchGrowState::get_variant_rep_bonus(v),
        None => 0,
    };
    let total_reputation_change: i32 = base_reputation_change + variant_bonus;

    match_state.customers[customer_index as usize] = CustomerState {
        layer: customer.layer,
        last_served_ts: current_ts,
        total_serves: customer.total_serves + 1,
        last_served_by: Some(*player),
    };
    if is_player_a {
        grow_state.player_a_inventory = inventory;
        match_state.player_a_sales = sales + 1;
        match_state.player_a_reputation = shifted_reputation(
            match_state.player_a_reputation,
            total_reputation_change,
        );
    } else {
        grow_state.player_b_inventory = inventory;
        match_state.player_b_sales = sales + 1;
        match_state.player_b_reputation = shifted_reputation(
            match_state.player_b_reputation,
            total_reputation_change,
        );
    }

    let rotation_bucket: u64 = MatchDeliveryState::get_rotation_bucket(current_ts);
    Ok(
        SaleEvent {
            match_id: match_state.match_id,
            customer_index,
            customer_layer,
            strain_level,
            variant_id: match variant_id {
                Some(v) => v,
                None => 0,
            },
            player: *player,
            base_reputation_delta: base_reputation_change,
            variant_bonus,
            total_reputation_delta: total_reputation_change,
            timestamp: current_ts,
            remaining_inventory,
            rotation_bucket,
        },
    )
}

/// A reputation moved by `delta` and brought back into its range.
fn shifted_reputation(rep: i32, delta: i32) -> (shifted: i32)
    ensures
        shifted == crate::state::match_state::spec_clamp_reputation(rep + delta),
        -1000 <= shifted <= 1000,
{
    let sum: i64 = (rep as i64) + (delta as i64);
    if sum < -1000 {
        -1000
    } else if sum > 1000 {
        1000
    } else {
        sum as i32
    }
}

} // verus!
