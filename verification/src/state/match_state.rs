use crate::errors::DroogError;
use crate::identity::PlayerKey;
use crate::state::customer_state::{spec_layer_of, CustomerState};
use vstd::prelude::*;

verus! {

/// Length of a match, from its start to its end.
pub const MATCH_DURATION_SECONDS: i64 = 600;

/// The record of a match: its window of time, its players, its customers and
/// the players' tallies.
#[derive(Clone, Copy, Debug, PartialEq, Eq)]
pub struct MatchState {
    /// Identifier of the match.
    pub match_id: u64,
    /// The 32-byte form of the match identifier.
    pub match_id_hash: [u8; 32],
    /// First moment of play.
    pub start_ts: i64,
    /// First moment after play: the start plus the length of a match.
    pub end_ts: i64,
    /// Player A.
    pub player_a: PlayerKey,
    /// Player B.
    pub player_b: PlayerKey,
    /// The 23 customers, by index.
    pub customers: [CustomerState; 23],
    /// Number of sales of player A.
    pub player_a_sales: u32,
    /// Number of sales of player B.
    pub player_b_sales: u32,
    /// Reputation of player A, between -1000 and 1000.
    pub player_a_reputation: i32,
    /// Reputation of player B, between -1000 and 1000.
    pub player_b_reputation: i32,
    /// Set once, by finalization; nothing changes afterwards.
    pub is_finalized: bool,
    /// Address bump of the record, carried for the storage layer.
    pub bump: u8,
}

/// Where a match stands at a given time. A match goes through the phases in
/// this order; the first three follow from the clock, the last is entered
/// by finalization and never left.
#[derive(Clone, Copy, Debug, PartialEq, Eq, Structural)]
pub enum MatchPhase {
    /// The start lies ahead.
    NotStarted,
    /// Play is open.
    Active,
    /// The end has come; the match awaits finalization.
    Ended,
    /// The match is finalized.
    Finalized,
}

impl MatchPhase {
    /// Place of the phase in the order of phases.
    pub open spec fn spec_rank(self) -> int {
        match self {
            MatchPhase::NotStarted => 0,
            MatchPhase::Active => 1,
            MatchPhase::Ended => 2,
            MatchPhase::Finalized => 3,
        }
    }
}

/// A reputation brought back into the range from -1000 to 1000.
pub open spec fn spec_clamp_reputation(rep: int) -> int {
    if rep < -1000 {
        -1000
    } else if rep > 1000 {
        1000
    } else {
        rep
    }
}

/// The reputation that `rep` becomes through the changes `deltas`, applied in
/// order and clamped after each.
pub open spec fn spec_reputation_after(rep: int, deltas: Seq<int>) -> int
    decreases deltas.len(),
{
    if deltas.len() == 0 {
        rep
    } else {
        spec_clamp_reputation(spec_reputation_after(rep, deltas.drop_last()) + deltas.last())
    }
}

/// The quotient of `elapsed` by `period`, rounded towards zero and read as an
/// unsigned 64-bit number, so that a negative quotient wraps round.
pub open spec fn spec_rotation_index(elapsed: int, period: int) -> int {
    let quotient = if elapsed >= 0 {
        elapsed / period
    } else {
        -((-elapsed) / period)
    };
    if quotient >= 0 {
        quotient
    } else {
        quotient + 0x1_0000_0000_0000_0000
    }
}

impl MatchState {
    /// Lowest reputation.
    pub const REP_MIN: i32 = -1000;

    /// Highest reputation.
    pub const REP_MAX: i32 = 1000;

    /// The record is one that a match can be in: the end follows the start
    /// by the length of a match, player A has the lower key, every customer
    /// carries the layer of its index, and both reputations are in range.
    pub open spec fn wf(self) -> bool {
        &&& self.end_ts == self.start_ts + MATCH_DURATION_SECONDS
        &&& self.player_a.spec_precedes(self.player_b)
        &&& forall|i: int|
            0 <= i < 23 ==> (#[trigger] self.customers@[i]).layer == spec_layer_of(i as u8)
        &&& -1000 <= self.player_a_reputation <= 1000
        &&& -1000 <= self.player_b_reputation <= 1000
    }

    /// Whether `player` is one of the two players of the match.
    pub open spec fn spec_is_participant(self, player: PlayerKey) -> bool {
        player == self.player_a || player == self.player_b
    }

    /// The player with more sales; player A where both have as many.
    pub open spec fn spec_winner(self) -> PlayerKey {
        if self.player_a_sales >= self.player_b_sales {
            self.player_a
        } else {
            self.player_b
        }
    }

    /// The player who is not the winner.
    pub open spec fn spec_loser(self) -> PlayerKey {
        if self.player_a_sales >= self.player_b_sales {
            self.player_b
        } else {
            self.player_a
        }
    }

    /// Number of sales of player A or of player B.
    pub open spec fn spec_sales_of(self, for_a: bool) -> u32 {
        if for_a {
            self.player_a_sales
        } else {
            self.player_b_sales
        }
    }

    /// Reputation of player A or of player B.
    pub open spec fn spec_reputation_of(self, for_a: bool) -> i32 {
        if for_a {
            self.player_a_reputation
        } else {
            self.player_b_reputation
        }
    }

    /// `self` is `before` but for the flag of finalization, which is set.
    pub open spec fn spec_is_finalization_of(self, before: MatchState) -> bool {
        &&& self.is_finalized
        &&& self.match_id == before.match_id
        &&& self.match_id_hash == before.match_id_hash
        &&& self.start_ts == before.start_ts
        &&& self.end_ts == before.end_ts
        &&& self.player_a == before.player_a
        &&& self.player_b == before.player_b
        &&& self.customers == before.customers
        &&& self.player_a_sales == before.player_a_sales
        &&& self.player_b_sales == before.player_b_sales
        &&& self.player_a_reputation == before.player_a_reputation
        &&& self.player_b_reputation == before.player_b_reputation
        &&& self.bump == before.bump
    }

    /// `self` is `before` after one sale by player A or by player B to the
    /// customer at `customer_index`: the customer notes the time, the seller
    /// and one more serve; the seller has one more sale and a reputation
    /// changed by `delta` and clamped. Nothing else has changed.
    pub open spec fn spec_records_sale(
        self,
        before: MatchState,
        for_a: bool,
        seller: PlayerKey,
        customer_index: int,
        current_ts: i64,
        delta: int,
    ) -> bool {
        &&& self.match_id == before.match_id
        &&& self.match_id_hash == before.match_id_hash
        &&& self.start_ts == before.start_ts
        &&& self.end_ts == before.end_ts
        &&& self.player_a == before.player_a
        &&& self.player_b == before.player_b
        &&& self.is_finalized == before.is_finalized
        &&& self.bump == before.bump
        &&& self.customers@ == before.customers@.update(
            customer_index,
            CustomerState {
                layer: before.customers@[customer_index].layer,
                last_served_ts: current_ts,
                total_serves: (before.customers@[customer_index].total_serves + 1) as u32,
                last_served_by: Some(seller),
            },
        )
        &&& self.spec_sales_of(for_a) == before.spec_sales_of(for_a) + 1
        &&& self.spec_reputation_of(for_a) == spec_clamp_reputation(
            before.spec_reputation_of(for_a) + delta,
        )
        &&& self.spec_sales_of(!for_a) == before.spec_sales_of(!for_a)
        &&& self.spec_reputation_of(!for_a) == before.spec_reputation_of(!for_a)
    }

    /// The phase of the match at `current_ts`.
    pub open spec fn spec_phase(self, current_ts: i64) -> MatchPhase {
        if self.is_finalized {
            MatchPhase::Finalized
        } else if current_ts < self.start_ts {
            MatchPhase::NotStarted
        } else if current_ts < self.end_ts {
            MatchPhase::Active
        } else {
            MatchPhase::Ended
        }
    }

    /// Why play is closed at `current_ts`, if it is: in every phase but the
    /// active one, for the reason that the phase gives.
    pub open spec fn spec_play_refusal(self, current_ts: i64) -> Option<DroogError> {
        match self.spec_phase(current_ts) {
            MatchPhase::Finalized => Some(DroogError::MatchAlreadyFinalized),
            MatchPhase::NotStarted => Some(DroogError::MatchNotStarted),
            MatchPhase::Ended => Some(DroogError::MatchEnded),
            MatchPhase::Active => None,
        }
    }

    /// Cooldown of a customer of `layer`; none for a layer outside 1 to 3.
    pub open spec fn spec_customer_cooldown(layer: u8) -> int {
        if layer == 1 {
            30
        } else if layer == 2 {
            45
        } else if layer == 3 {
            75
        } else {
            0
        }
    }

    /// The customer exists and is off cooldown at `current_ts`: never served
    /// (a last time of 0), or served at least the cooldown of its layer ago.
    pub open spec fn spec_customer_available(self, customer_index: int, current_ts: i64) -> bool {
        &&& 0 <= customer_index < 23
        &&& (self.customers@[customer_index].last_served_ts == 0 || current_ts
            >= self.customers@[customer_index].last_served_ts + Self::spec_customer_cooldown(
            spec_layer_of(customer_index as u8),
        ))
    }

    /// A customer of `layer` buys `strain_level`: layer 1 buys level 1, layer
    /// 2 levels 1 and 2, layer 3 levels 2 and 3.
    pub open spec fn spec_layer_accepts(layer: u8, strain_level: u8) -> bool {
        if layer == 1 {
            strain_level == 1
        } else if layer == 2 {
            strain_level == 1 || strain_level == 2
        } else if layer == 3 {
            strain_level == 2 || strain_level == 3
        } else {
            false
        }
    }

    /// Reputation gained by selling `strain_level` to a customer of `layer`.
    pub open spec fn spec_reputation_change(layer: u8, strain_level: u8) -> int {
        if layer == 1 {
            if strain_level == 1 {
                1
            } else {
                -2
            }
        } else if layer == 2 {
            if strain_level == 2 {
                2
            } else if strain_level == 1 {
                1
            } else {
                -2
            }
        } else if layer == 3 {
            if strain_level == 3 {
                3
            } else if strain_level == 2 {
                1
            } else {
                -3
            }
        } else {
            0
        }
    }

    /// The strain is on offer at `current_ts`. Strains 0 to 2 are of level 1:
    /// two of them are on offer at a time, the pair moving on by one every
    /// 600 time units. Strains 3 to 5 are of level 2: one is on offer, the
    /// next one every 900 time units. Strain 6, of level 3, always is.
    pub open spec fn spec_strain_active(self, strain_id: u8, current_ts: i64) -> bool {
        let elapsed = current_ts - self.start_ts;
        if strain_id < 3 {
            let turn = spec_rotation_index(elapsed, 600) % 3;
            strain_id == turn || strain_id == (turn + 1) % 3
        } else if strain_id < 6 {
            strain_id == 3 + spec_rotation_index(elapsed, 900) % 3
        } else {
            strain_id == 6
        }
    }

    /// The phase of the match at `current_ts`.
    pub fn phase(&self, current_ts: i64) -> (phase: MatchPhase)
        ensures
            phase == self.spec_phase(current_ts),
    {
        if self.is_finalized {
            MatchPhase::Finalized
        } else if current_ts < self.start_ts {
            MatchPhase::NotStarted
        } else if current_ts < self.end_ts {
            MatchPhase::Active
        } else {
            MatchPhase::Ended
        }
    }

    /// Refuses where play is closed at `current_ts`: in every phase but the
    /// active one.
    pub fn check_play_open(&self, current_ts: i64) -> (result: Result<(), DroogError>)
        ensures
            match self.spec_play_refusal(current_ts) {
                Some(e) => result == Err::<(), DroogError>(e),
                None => result is Ok,
            },
            result is Ok <==> self.spec_phase(current_ts) == MatchPhase::Active,
    {
        match self.phase(current_ts) {
            MatchPhase::Finalized => Err(DroogError::MatchAlreadyFinalized),
            MatchPhase::NotStarted => Err(DroogError::MatchNotStarted),
            MatchPhase::Ended => Err(DroogError::MatchEnded),
            MatchPhase::Active => Ok(()),
        }
    }

    /// The layer of a customer index. The layer is never looked up: it
    /// follows from the index.
    pub fn layer_from_index(customer_index: u8) -> (layer: u8)
        ensures
            layer == spec_layer_of(customer_index),
            1 <= layer <= 3,
    {
        if customer_index < 3 {
            3
        } else if customer_index < 11 {
            2
        } else {
            1
        }
    }

    /// Cooldown of a customer of `layer`.
    pub fn get_customer_cooldown(layer: u8) -> (cooldown: i64)
        ensures
            cooldown == Self::spec_customer_cooldown(layer),
    {
        match layer {
            1 => 30,
            2 => 45,
            3 => 75,
            _ => 0,
        }
    }

    /// Cooldown of the customer at `customer_index`.
    pub fn get_cooldown_for_customer(customer_index: u8) -> (cooldown: i64)
        ensures
            cooldown == Self::spec_customer_cooldown(spec_layer_of(customer_index)),
    {
        let layer: u8 = Self::layer_from_index(customer_index);
        Self::get_customer_cooldown(layer)
    }

    /// Tells whether the customer exists and is off cooldown.
    pub fn is_customer_available(&self, customer_index: usize, current_ts: i64) -> (r: bool)
        ensures
            r == self.spec_customer_available(customer_index as int, current_ts),
    {
        if customer_index >= 23 {
            return false;
        }
        let last_served_ts: i64 = self.customers[customer_index].last_served_ts;
        if last_served_ts == 0 {
            return true;
        }
        let layer: u8 = Self::layer_from_index(customer_index as u8);
        let cooldown: i64 = Self::get_customer_cooldown(layer);
        (current_ts as i128) >= (last_served_ts as i128) + (cooldown as i128)
    }

    /// Tells whether the customer exists and buys `strain_level`.
    pub fn validate_strain_for_customer(&self, customer_index: usize, strain_level: u8) -> (r:
        bool)
        ensures
            r == (customer_index < 23 && Self::spec_layer_accepts(
                spec_layer_of(customer_index as u8),
                strain_level,
            )),
    {
        if customer_index >= 23 {
            return false;
        }
        let layer: u8 = Self::layer_from_index(customer_index as u8);
        match layer {
            1 => strain_level == 1,
            2 => strain_level == 1 || strain_level == 2,
            3 => strain_level == 2 || strain_level == 3,
            _ => false,
        }
    }

    /// Reputation gained by selling `strain_level` to the customer at
    /// `customer_index`.
    pub fn get_reputation_change_for_customer(customer_index: u8, strain_level: u8) -> (change:
        i32)
        ensures
            change == Self::spec_reputation_change(spec_layer_of(customer_index), strain_level),
    {
        let layer: u8 = Self::layer_from_index(customer_index);
        Self::get_reputation_change(layer, strain_level)
    }

    /// Reputation gained by selling `strain_level` to a customer of
    /// `customer_layer`.
    pub fn get_reputation_change(customer_layer: u8, strain_level: u8) -> (change: i32)
        ensures
            change == Self::spec_reputation_change(customer_layer, strain_level),
            -3 <= change <= 3,
    {
        match customer_layer {
            1 => if strain_level == 1 {
                1
            } else {
                -2
            },
            2 => {
                if strain_level == 2 {
                    2
                } else if strain_level == 1 {
                    1
                } else {
                    -2
                }
            },
            3 => {
                if strain_level == 3 {
                    3
                } else if strain_level == 2 {
                    1
                } else {
                    -3
                }
            },
            _ => 0,
        }
    }

    /// Tells whether the strain is on offer at `current_ts`.
    pub fn is_strain_active(&self, strain_id: u8, current_ts: i64) -> (r: bool)
        ensures
            r == self.spec_strain_active(strain_id, current_ts),
    {
        let elapsed: i128 = (current_ts as i128) - (self.start_ts as i128);
        if strain_id < 3 {
            let turn: u8 = Self::rotation_turn(elapsed, 600);
            strain_id == turn || strain_id == (turn + 1) % 3
        } else if strain_id < 6 {
            let turn: u8 = Self::rotation_turn(elapsed, 900);
            strain_id == 3 + turn
        } else {
            strain_id == 6
        }
    }

    fn rotation_turn(elapsed: i128, period: i128) -> (turn: u8)
        requires
            -0x1_0000_0000_0000_0000 <= elapsed <= 0x1_0000_0000_0000_0000,
            period == 600 || period == 900,
        ensures
            turn == spec_rotation_index(elapsed as int, period as int) % 3,
            turn < 3,
    {
        if elapsed >= 0 {
            ((elapsed / period) % 3) as u8
        } else {
            let back: i128 = (-elapsed) / period;
            if back == 0 {
                0
            } else {
                ((0x1_0000_0000_0000_0000i128 - back) % 3) as u8
            }
        }
    }

    /// Brings a reputation back into the range from -1000 to 1000.
    pub fn clamp_reputation(rep: i32) -> (clamped: i32)
        ensures
            clamped == spec_clamp_reputation(rep as int),
            -1000 <= clamped <= 1000,
    {
        if rep < Self::REP_MIN {
            Self::REP_MIN
        } else if rep > Self::REP_MAX {
            Self::REP_MAX
        } else {
            rep
        }
    }
}

/// A match never goes back: as time passes its phase stays or moves on, and
/// finalization, which leaves everything else as it is, moves it to the last
/// phase, where it stays at every time.
pub proof fn lemma_phase_only_advances(
    match_state: MatchState,
    finalized: MatchState,
    earlier_ts: i64,
    later_ts: i64,
)
    requires
        earlier_ts <= later_ts,
        finalized.spec_is_finalization_of(match_state),
    ensures
        match_state.spec_phase(earlier_ts).spec_rank() <= match_state.spec_phase(
            later_ts,
        ).spec_rank(),
        match_state.spec_phase(earlier_ts).spec_rank() <= finalized.spec_phase(
            later_ts,
        ).spec_rank(),
        finalized.spec_phase(earlier_ts) == MatchPhase::Finalized,
        finalized.spec_play_refusal(later_ts) == Some(DroogError::MatchAlreadyFinalized),
{
}

/// Whatever the changes and however many, a reputation that is clamped after
/// each of them is in range after the first, and one that starts in range
/// never leaves it.
pub proof fn lemma_reputation_stays_bounded(rep: int, deltas: Seq<int>)
    ensures
        deltas.len() > 0 ==> -1000 <= spec_reputation_after(rep, deltas) <= 1000,
        -1000 <= rep <= 1000 ==> -1000 <= spec_reputation_after(rep, deltas) <= 1000,
    decreases deltas.len(),
{
    if deltas.len() > 0 {
        lemma_reputation_stays_bounded(rep, deltas.drop_last());
    }
}

} // verus!
