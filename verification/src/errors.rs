use vstd::prelude::*;

verus! {

/// Every way an operation of the match can be refused.
///
/// A refusal is final for the call that produced it: no record is changed, and
/// it is up to the caller to try again once time, rotation or the opponent
/// have moved on.
#[derive(Clone, Copy, Debug, PartialEq, Eq, Structural)]
pub enum DroogError {
    /// The match has not started yet.
    MatchNotStarted,
    /// The match has already ended.
    MatchEnded,
    /// The plant's growth time has not elapsed.
    GrowthTimeNotElapsed,
    /// The regrowth lockout period has not passed.
    RegrowthLockoutActive,
    /// The strain is not currently active.
    StrainNotActive,
    /// The customer's cooldown has not passed.
    CustomerOnCooldown,
    /// The strain level is out of range or does not suit the customer.
    InvalidStrainLevel,
    /// The customer index is out of range.
    InvalidCustomerIndex,
    /// The player is not part of this match.
    InvalidPlayer,
    /// The customer is not available.
    CustomerNotAvailable,
    /// The layer assignment is invalid.
    InvalidLayer,
    /// The match has already been finalized.
    MatchAlreadyFinalized,
    /// The match cannot be finalized before its end time.
    MatchFinalizationTooEarly,
    /// Only match participants can finalize the match.
    UnauthorizedFinalization,
    /// Two records of one operation carry different match identifiers.
    MatchIdMismatch,
    /// Planting is locked during the final minute of the match.
    EndgamePlantingLocked,
    /// The grow slot index is out of range (slots are 0 to 5).
    InvalidSlotIndex,
    /// The grow slot already holds a plant.
    SlotOccupied,
    /// The grow slot is empty.
    SlotEmpty,
    /// The plant would not be ready before the match ends.
    PlantWontBeReady,
    /// The inventory holds no unit of the strain level to sell.
    InsufficientInventory,
    /// The inventory is at capacity.
    InventoryFull,
    /// The customer is not in the current delivery rotation.
    CustomerNotAvailableForDelivery,
    /// The delivery slots have not rotated yet.
    DeliveryRotationTooSoon,
    /// The delivery state has not been initialized for this match.
    DeliveryStateNotInitialized,
    /// Player A must have the lower key of the two players.
    InvalidPlayerOrder,
    /// The token balance is too low for the stake.
    InsufficientStakeBalance,
    /// The stake is not in the pending status.
    MatchNotPending,
    /// The stake is not in the active status.
    MatchNotActive,
    /// The cancel timeout has not elapsed.
    CancelTooEarly,
    /// Player B has already joined, so the match cannot be cancelled.
    PlayerBAlreadyJoined,
    /// The stake amount exceeds the maximum.
    StakeExceedsMaximum,
    /// The player has already staked.
    AlreadyStaked,
    /// A counter, a time or an amount left the range of its type.
    CalculationOverflow,
}

} // verus!
