pub mod customer_state;
pub mod delivery_state;
pub mod grow_state;
pub mod match_state;
pub mod stake_state;

pub use customer_state::{CustomerState, CUSTOMER_COUNT};
pub use delivery_state::{
    MatchDeliveryState, DELIVERY_ROTATION_INTERVAL, LAYER1_END, LAYER1_START, LAYER2_END,
    LAYER2_START, LAYER3_END, LAYER3_START, MAX_DELIVERY_SPOTS,
};
pub use grow_state::{
    GrowSlot, Inventory, MatchGrowState, PlantState, ENDGAME_LOCK_SECONDS, GROWTH_TIMES,
    SLOTS_PER_PLAYER, SMELL_RATES, VARIANT_COUNT,
};
pub use match_state::{MatchPhase, MatchState, MATCH_DURATION_SECONDS};
pub use stake_state::{
    MatchActivatedEvent, MatchCancelledEvent, MatchStakeInitializedEvent, MatchStakeState,
    MatchStatus, StakePayoutEvent, BURN_PERCENTAGE, CANCEL_TIMEOUT_SECONDS, STAKE_AMOUNT,
    TOKEN_DECIMALS,
};
