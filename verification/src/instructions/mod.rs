pub mod cancel_match;
pub mod finalize_match;
pub mod harvest;
pub mod harvest_strain;
pub mod init_delivery_state;
pub mod init_grow_state;
pub mod init_match;
pub mod join_match_stake;
pub mod plant_strain;
pub mod refresh_delivery_slots;
pub mod sell_to_customer;

pub use cancel_match::cancel_match;
pub use finalize_match::{finalize_match, MatchFinalizedEvent};
pub use harvest::{harvest, HarvestEvent, STRAIN_GROWTH_TIMES, STRAIN_REGROWTH_LOCKOUTS};
pub use harvest_strain::{harvest_strain, HarvestStrainEvent};
pub use init_delivery_state::{init_delivery_state, DeliveryStateInitializedEvent};
pub use init_grow_state::{init_grow_state, GrowStateInitializedEvent};
pub use init_match::{init_match, InitMatchBumps, START_LEAD_SECONDS};
pub use join_match_stake::join_match_with_stake;
pub use plant_strain::{plant_strain, PlantStrainEvent};
pub use refresh_delivery_slots::{refresh_delivery_slots, DeliveryRotationEvent};
pub use sell_to_customer::{sell_to_customer, SaleEvent};
