use crate::errors::DroogError;
use crate::identity::PlayerKey;
use crate::state::match_state::MatchState;
use vstd::prelude::*;

verus! {

/// Growth time of each of the seven strains of the slower rule set: three
/// strains of level 1, three of level 2, one of level 3.
pub const STRAIN_GROWTH_TIMES: [i64; 7] = [240, 240, 240, 420, 420, 420, 660];

/// Time that a strain of the slower rule set rests after a harvest.
pub const STRAIN_REGROWTH_LOCKOUTS: [i64; 7] = [60, 60, 60, 90, 90, 90, 120];

/// Audit record of one harvest under the slower rule set.
#[derive(Clone, Copy, Debug, PartialEq, Eq)]
pub struct HarvestEvent {
    pub player: PlayerKey,
    pub match_id: u64,
    pub strain_id: u8,
    pub harvested_at: i64,
}

/// Growth time of a strain of the slower rule set.
pub open spec fn spec_strain_growth_time(strain_id: u8) -> int {
    if strain_id < 3 {
        240
    } else if strain_id < 6 {
        420
    } else {
        660
    }
}

/// Rest of a strain of the slower rule set after a harvest.
pub open spec fn spec_strain_regrowth_lockout(strain_id: u8) -> int {
    if strain_id < 3 {
        60
    } else if strain_id < 6 {
        90
    } else {
        120
    }
}

/// Why a harvest under the slower rule set is refused, if it is. The
/// reasons are asked in this order, and the first that holds is the one
/// reported.
pub open spec fn spec_slow_harvest_refusal(
    match_state: MatchState,
    strain_id: u8,
    planted_at: i64,
    last_harvested_at: Option<i64>,
    current_ts: i64,
) -> Option<DroogError> {
    if match_state.is_finalized {
        Some(DroogError::MatchAlreadyFinalized)
    } else if strain_id >= 7 {
        Some(DroogError::StrainNotActive)
    } else if current_ts < match_state.start_ts {
        Some(DroogError::MatchNotStarted)
    } else if current_ts >= match_state.end_ts {
        Some(DroogError::MatchEnded)
    } else if current_ts - planted_at < spec_strain_growth_time(strain_id) {
        Some(DroogError::GrowthTimeNotElapsed)
    } else if last_harvested_at is Some && current_ts - last_harvested_at->0
        < spec_strain_regrowth_lockout(strain_id) {
        Some(DroogError::RegrowthLockoutActive)
    } else if !match_state.spec_strain_active(strain_id, current_ts) {
        Some(DroogError::StrainNotActive)
    } else {
        None
    }
}

/// What the check of a harvest under the slower rule set returns: the
/// refusal, or else the audit record.
pub open spec fn spec_slow_harvest_result(
    match_state: MatchState,
    player: PlayerKey,
    strain_id: u8,
    planted_at: i64,
    last_harvested_at: Option<i64>,
    current_ts: i64,
) -> Result<HarvestEvent, DroogError> {
    match spec_slow_harvest_refusal(
        match_state,
        strain_id,
        planted_at,
        last_harvested_at,
        current_ts,
    ) {
        Some(refusal) => Err(refusal),
        None => Ok(
            HarvestEvent {
                player,
                match_id: match_state.match_id,
                strain_id,
                harvested_at: current_ts,
            },
        ),
    }
}

/// Checks a harvest under the slower rule set, in which the caller keeps
/// the plants and the match only says whether the harvest is in order.
///
/// It is in order while the match is open, for one of the seven strains,
/// once the strain's growth time has passed since `planted_at` and its rest
/// since `last_harvested_at`, if there was a harvest before, and while the
/// strain is on offer. No record changes either way.
pub fn harvest(
    match_state: &MatchState,
    player: &PlayerKey,
    strain_id: u8,
    planted_at: i64,
    last_harvested_at: Option<i64>,
    current_ts: i64,
) -> (result: Result<HarvestEvent, DroogError>)
    ensures
        result == spec_slow_harvest_result(
            *match_state,
            *player,
            strain_id,
            planted_at,
            last_harvested_at,
            current_ts,
        ),
        match_state.is_finalized ==> result is Err,
{
    if match_state.is_finalized {
        return Err(DroogError::MatchAlreadyFinalized);
    }
    if strain_id >= 7 {
        return Err(DroogError::StrainNotActive);
    }
    if current_ts < match_state.start_ts {
        return Err(DroogError::MatchNotStarted);
    }
    if current_ts >= match_state.end_ts {
        return Err(DroogError::MatchEnded);
    }
    let growth_time: i64 = STRAIN_GROWTH_TIMES[strain_id as usize];
    if (current_ts as i128) - (planted_at as i128) < (growth_time as i128) {
        return Err(DroogError::GrowthTimeNotElapsed);
    }
    match last_harvested_at {
        Some(last_harvest) => {
            let lockout_time: i64 = STRAIN_REGROWTH_LOCKOUTS[strain_id as usize];
            if (current_ts as i128) - (last_harvest as i128) < (lockout_time as i128) {
                return Err(DroogError::RegrowthLockoutActive);
            }
        },
        None => {},
    }
    if !match_state.is_strain_active(strain_id, current_ts) {
        return Err(DroogError::StrainNotActive);
    }
    Ok(
        HarvestEvent {
            player: *player,
            match_id: match_state.match_id,
            strain_id,
            harvested_at: current_ts,
        },
    )
}

} // verus!
