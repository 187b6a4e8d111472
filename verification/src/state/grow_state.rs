use crate::identity::PlayerKey;
use crate::mixing::{mix_first, spec_mix_first};
use vstd::prelude::*;

verus! {

/// Growth time of each strain level, in time units, level 1 first.
pub const GROWTH_TIMES: [i64; 3] = [10, 30, 60];

/// Smell gained per full minute of growing, level 1 first.
pub const SMELL_RATES: [u16; 3] = [1, 2, 4];

/// Number of variants a plant can be assigned.
pub const VARIANT_COUNT: u8 = 3;

/// Length of the closing window of a match in which nothing can be planted.
pub const ENDGAME_LOCK_SECONDS: i64 = 60;

/// Number of grow slots of each player.
pub const SLOTS_PER_PLAYER: usize = 6;

/// What a grow slot holds. The slot is land and stays; the plant is consumed
/// by the harvest.
#[derive(Clone, Copy, Debug, PartialEq, Eq, Structural)]
pub enum PlantState {
    /// Nothing is planted.
    Empty,
    /// A plant of `strain_level` was planted at `planted_at` and is growing.
    Growing { strain_level: u8, planted_at: i64 },
    /// A plant of `strain_level` can be harvested.
    Ready { strain_level: u8 },
}

impl Default for PlantState {
    fn default() -> (state: PlantState)
        ensures
            state == PlantState::Empty,
    {
        PlantState::Empty
    }
}

/// One grow slot of a player.
#[derive(Clone, Copy, Debug, PartialEq, Eq, Structural)]
pub struct GrowSlot {
    /// What the slot holds now.
    pub plant_state: PlantState,
    /// Level of the last plant put here; kept after the harvest.
    pub strain_level: u8,
    /// Variant of the last plant put here; kept after the harvest.
    pub variant_id: u8,
    /// Time of the last harvest from this slot.
    pub last_harvested_ts: i64,
}

impl Default for GrowSlot {
    fn default() -> (slot: GrowSlot)
        ensures
            slot == GrowSlot::spec_fresh(),
    {
        GrowSlot {
            plant_state: PlantState::Empty,
            strain_level: 0,
            variant_id: 0,
            last_harvested_ts: 0,
        }
    }
}

impl GrowSlot {
    /// A slot that was never planted.
    pub open spec fn spec_fresh() -> GrowSlot {
        GrowSlot {
            plant_state: PlantState::Empty,
            strain_level: 0,
            variant_id: 0,
            last_harvested_ts: 0,
        }
    }

    /// The slot as it reads at `current_ts`: a growing plant whose growth time
    /// has elapsed is ready; anything else is as stored.
    pub open spec fn spec_advanced(self, current_ts: i64) -> GrowSlot {
        match self.plant_state {
            PlantState::Growing { strain_level, planted_at } => {
                if current_ts - planted_at >= MatchGrowState::spec_growth_time(strain_level) {
                    GrowSlot { plant_state: PlantState::Ready { strain_level }, ..self }
                } else {
                    self
                }
            },
            _ => self,
        }
    }

    /// Whether a sale of `strain_level` may take its variant from this slot:
    /// the slot is empty and the last plant in it had that level.
    pub open spec fn spec_sale_candidate(self, strain_level: u8) -> bool {
        self.plant_state is Empty && self.strain_level == strain_level
    }

    /// Brings the stored state up to date with the clock. Growth is derived
    /// from the planting time alone, so this is called before every read.
    pub fn advance_if_ready(&mut self, current_ts: i64)
        ensures
            *final(self) == old(self).spec_advanced(current_ts),
    {
        if let PlantState::Growing { strain_level, planted_at } = self.plant_state {
            let growth_time: i64 = MatchGrowState::get_growth_time(strain_level);
            if (current_ts as i128) - (planted_at as i128) >= (growth_time as i128) {
                self.plant_state = PlantState::Ready { strain_level };
            }
        }
    }
}

/// Harvested units of a player, counted by strain level.
#[derive(Clone, Copy, Debug, PartialEq, Eq, Structural)]
pub struct Inventory {
    /// Units of level 1.
    pub level1: u8,
    /// Units of level 2.
    pub level2: u8,
    /// Units of level 3.
    pub level3: u8,
}

impl Default for Inventory {
    fn default() -> (inventory: Inventory)
        ensures
            inventory == Inventory::spec_empty(),
    {
        Inventory { level1: 0, level2: 0, level3: 0 }
    }
}

impl Inventory {
    /// The most units an inventory holds, all levels together.
    pub const INVENTORY_CAPACITY: u8 = 6;

    /// The inventory without any unit.
    pub open spec fn spec_empty() -> Inventory {
        Inventory { level1: 0, level2: 0, level3: 0 }
    }

    /// Units of `strain_level`; no units of a level outside 1 to 3.
    pub open spec fn spec_count(self, strain_level: u8) -> int {
        if strain_level == 1 {
            self.level1 as int
        } else if strain_level == 2 {
            self.level2 as int
        } else if strain_level == 3 {
            self.level3 as int
        } else {
            0
        }
    }

    /// Units of all levels together.
    pub open spec fn spec_total(self) -> int {
        self.level1 + self.level2 + self.level3
    }

    /// The inventory is within its capacity.
    pub open spec fn wf(self) -> bool {
        self.spec_total() <= 6
    }

    /// The inventory with one more unit of `strain_level`, where the level is
    /// one of 1 to 3 and there is space; else the inventory itself.
    pub open spec fn spec_incremented(self, strain_level: u8) -> Inventory {
        if self.spec_total() >= 6 {
            self
        } else if strain_level == 1 {
            Inventory { level1: (self.level1 + 1) as u8, ..self }
        } else if strain_level == 2 {
            Inventory { level2: (self.level2 + 1) as u8, ..self }
        } else if strain_level == 3 {
            Inventory { level3: (self.level3 + 1) as u8, ..self }
        } else {
            self
        }
    }

    /// The inventory with one unit of `strain_level` less, where it has one;
    /// else the inventory itself.
    pub open spec fn spec_decremented(self, strain_level: u8) -> Inventory {
        if self.spec_count(strain_level) == 0 {
            self
        } else if strain_level == 1 {
            Inventory { level1: (self.level1 - 1) as u8, ..self }
        } else if strain_level == 2 {
            Inventory { level2: (self.level2 - 1) as u8, ..self }
        } else {
            Inventory { level3: (self.level3 - 1) as u8, ..self }
        }
    }

    /// The inventory after one increment for each entry of `levels`, in order.
    pub open spec fn spec_after_increments(self, levels: Seq<u8>) -> Inventory
        decreases levels.len(),
    {
        if levels.len() == 0 {
            self
        } else {
            self.spec_after_increments(levels.drop_last()).spec_incremented(levels.last())
        }
    }

    /// Tells whether there is at least one unit of `strain_level`.
    pub fn has(&self, strain_level: u8) -> (r: bool)
        ensures
            r == (self.spec_count(strain_level) > 0),
    {
        match strain_level {
            1 => self.level1 > 0,
            2 => self.level2 > 0,
            3 => self.level3 > 0,
            _ => false,
        }
    }

    /// The number of units of `strain_level`.
    pub fn get(&self, strain_level: u8) -> (count: u8)
        ensures
            count == self.spec_count(strain_level),
    {
        match strain_level {
            1 => self.level1,
            2 => self.level2,
            3 => self.level3,
            _ => 0,
        }
    }

    /// The number of units of all levels together, cut off at 255.
    pub fn total(&self) -> (total: u8)
        ensures
            total == if self.spec_total() <= 255 {
                self.spec_total()
            } else {
                255
            },
            self.wf() ==> total == self.spec_total() && total <= 6,
    {
        self.level1.saturating_add(self.level2).saturating_add(self.level3)
    }

    /// Tells whether one more unit fits.
    pub fn has_space(&self) -> (r: bool)
        ensures
            r == (self.spec_total() < 6),
    {
        self.total() < Self::INVENTORY_CAPACITY
    }

    /// Adds one unit of `strain_level`. A full inventory, and one asked for a
    /// level outside 1 to 3, stays as it is: the capacity is never exceeded.
    pub fn increment(&mut self, strain_level: u8)
        ensures
            *final(self) == old(self).spec_incremented(strain_level),
            old(self).wf() ==> final(self).wf(),
            final(self).spec_total() <= old(self).spec_total() + 1,
    {
        if self.has_space() {
            match strain_level {
                1 => {
                    self.level1 = self.level1 + 1;
                },
                2 => {
                    self.level2 = self.level2 + 1;
                },
                3 => {
                    self.level3 = self.level3 + 1;
                },
                _ => {},
            }
        }
    }

    /// Takes one unit of `strain_level` out and reports `true`; where there is
    /// none, reports `false` and leaves the inventory as it is.
    pub fn decrement(&mut self, strain_level: u8) -> (taken: bool)
        ensures
            taken == (old(self).spec_count(strain_level) > 0),
            *final(self) == old(self).spec_decremented(strain_level),
            !taken ==> *final(self) == *old(self),
            taken ==> final(self).spec_count(strain_level) == old(self).spec_count(strain_level)
                - 1 && final(self).spec_total() == old(self).spec_total() - 1,
            old(self).wf() ==> final(self).wf(),
    {
        if strain_level == 1 && self.level1 > 0 {
            self.level1 = self.level1 - 1;
            true
        } else if strain_level == 2 && self.level2 > 0 {
            self.level2 = self.level2 - 1;
            true
        } else if strain_level == 3 && self.level3 > 0 {
            self.level3 = self.level3 - 1;
            true
        } else {
            false
        }
    }
}

/// However many units are asked for, and of whatever levels, the inventory
/// never grows beyond its capacity: one that starts within it stays within
/// it, and none ever holds more than the larger of its capacity and what it
/// started with.
pub proof fn lemma_increments_respect_capacity(inventory: Inventory, levels: Seq<u8>)
    ensures
        inventory.wf() ==> inventory.spec_after_increments(levels).wf(),
        inventory.spec_after_increments(levels).spec_total() <= if inventory.spec_total() <= 6 {
            6
        } else {
            inventory.spec_total()
        },
        Inventory::spec_empty().spec_after_increments(levels).spec_total() <= 6,
    decreases levels.len(),
{
    if levels.len() > 0 {
        lemma_increments_respect_capacity(inventory, levels.drop_last());
        lemma_increments_respect_capacity(Inventory::spec_empty(), levels.drop_last());
    }
}

/// The grow record of a match: six slots and one inventory for each player.
#[derive(Clone, Copy, Debug, PartialEq, Eq)]
pub struct MatchGrowState {
    /// Identifier of the match this record belongs to.
    pub match_id: u64,
    /// The 32-byte form of the match identifier.
    pub match_id_hash: [u8; 32],
    /// Player A.
    pub player_a: PlayerKey,
    /// Player B.
    pub player_b: PlayerKey,
    /// Player A's slots.
    pub player_a_slots: [GrowSlot; 6],
    /// Player B's slots.
    pub player_b_slots: [GrowSlot; 6],
    /// Player A's harvested units.
    pub player_a_inventory: Inventory,
    /// Player B's harvested units.
    pub player_b_inventory: Inventory,
    /// Address bump of the record, carried for the storage layer.
    pub bump: u8,
}

impl MatchGrowState {
    /// Both inventories are within their capacity.
    pub open spec fn wf(self) -> bool {
        self.player_a_inventory.wf() && self.player_b_inventory.wf()
    }

    /// Whether `player` is player A of this record.
    pub open spec fn spec_is_player_a(self, player: PlayerKey) -> bool {
        player == self.player_a
    }

    /// Whether `player` is one of the two players of this record.
    pub open spec fn spec_is_participant(self, player: PlayerKey) -> bool {
        player == self.player_a || player == self.player_b
    }

    /// The slots of player A or of player B.
    pub open spec fn spec_slots_of(self, for_a: bool) -> Seq<GrowSlot> {
        if for_a {
            self.player_a_slots@
        } else {
            self.player_b_slots@
        }
    }

    /// The inventory of player A or of player B.
    pub open spec fn spec_inventory_of(self, for_a: bool) -> Inventory {
        if for_a {
            self.player_a_inventory
        } else {
            self.player_b_inventory
        }
    }

    /// `self` is `before` with the slots and the inventory of one player
    /// replaced by `slots` and `inventory`, and nothing else changed.
    pub open spec fn spec_updates(
        self,
        before: MatchGrowState,
        for_a: bool,
        slots: Seq<GrowSlot>,
        inventory: Inventory,
    ) -> bool {
        &&& self.match_id == before.match_id
        &&& self.match_id_hash == before.match_id_hash
        &&& self.player_a == before.player_a
        &&& self.player_b == before.player_b
        &&& self.bump == before.bump
        &&& self.spec_slots_of(for_a) == slots
        &&& self.spec_inventory_of(for_a) == inventory
        &&& self.spec_slots_of(!for_a) == before.spec_slots_of(!for_a)
        &&& self.spec_inventory_of(!for_a) == before.spec_inventory_of(!for_a)
    }

    /// Growth time of a strain level; 0 for a level outside 1 to 3.
    pub open spec fn spec_growth_time(strain_level: u8) -> int {
        if strain_level == 1 {
            10
        } else if strain_level == 2 {
            30
        } else if strain_level == 3 {
            60
        } else {
            0
        }
    }

    /// Smell per minute of a strain level; 0 for a level outside 1 to 3.
    pub open spec fn spec_smell_rate(strain_level: u8) -> int {
        if strain_level == 1 {
            1
        } else if strain_level == 2 {
            2
        } else if strain_level == 3 {
            4
        } else {
            0
        }
    }

    /// Smell of one slot at `current_ts`: for a growing plant, the full
    /// minutes since planting (none before planting; taken modulo 65536)
    /// times the rate of its level, cut off at 65535; else nothing.
    pub open spec fn spec_slot_smell(slot: GrowSlot, current_ts: i64) -> int {
        match slot.plant_state {
            PlantState::Growing { strain_level, planted_at } => {
                let elapsed = if current_ts - planted_at < 0 {
                    0
                } else if current_ts - planted_at > i64::MAX {
                    i64::MAX as int
                } else {
                    current_ts - planted_at
                };
                let minutes = (elapsed / 60) % 0x1_0000;
                let smell = minutes * Self::spec_smell_rate(strain_level);
                if smell > 0xffff {
                    0xffff
                } else {
                    smell
                }
            },
            _ => 0,
        }
    }

    /// Sum of the smell of the first `n` slots.
    pub open spec fn spec_smell_sum(slots: Seq<GrowSlot>, current_ts: i64, n: int) -> int
        decreases n,
    {
        if n <= 0 {
            0
        } else {
            Self::spec_smell_sum(slots, current_ts, n - 1) + Self::spec_slot_smell(
                slots[n - 1],
                current_ts,
            )
        }
    }

    /// Smell of a player's slots: the sum over the slots, cut off at 65535.
    pub open spec fn spec_smell(slots: Seq<GrowSlot>, current_ts: i64) -> int {
        let sum = Self::spec_smell_sum(slots, current_ts, slots.len() as int);
        if sum > 0xffff {
            0xffff
        } else {
            sum
        }
    }

    /// The variant of a plant: the match, the four words of the player's
    /// key, the slot and a counter, combined by exclusive or, put through the
    /// first mixing round and reduced modulo 3.
    pub open spec fn spec_variant_id(
        match_id: u64,
        player: PlayerKey,
        slot_index: u8,
        slot_number: u64,
    ) -> u8 {
        (spec_mix_first(match_id ^ player.spec_folded() ^ (slot_index as u64) ^ slot_number)
            % 3) as u8
    }

    /// Reputation modifier of a variant: -1, 0, +1 for variants 0, 1, 2; 0 for
    /// anything else.
    pub open spec fn spec_variant_rep_bonus(variant_id: u8) -> int {
        if variant_id == 0 {
            -1
        } else if variant_id == 2 {
            1
        } else {
            0
        }
    }

    /// Among the first `n` slots, the index of the slot a sale of
    /// `strain_level` takes its variant from: the candidate harvested last,
    /// and of several harvested at the same time the one with the highest
    /// index. `None` where no slot is a candidate.
    pub open spec fn spec_latest_harvest(
        slots: Seq<GrowSlot>,
        strain_level: u8,
        n: int,
    ) -> Option<int>
        decreases n,
    {
        if n <= 0 {
            None
        } else {
            let earlier = Self::spec_latest_harvest(slots, strain_level, n - 1);
            let later = match earlier {
                Some(j) => slots[j].last_harvested_ts <= slots[n - 1].last_harvested_ts,
                None => true,
            };
            if slots[n - 1].spec_sale_candidate(strain_level) && later {
                Some(n - 1)
            } else {
                earlier
            }
        }
    }

    /// The variant applied to a sale of `strain_level`, if any.
    pub open spec fn spec_variant_for_sale(slots: Seq<GrowSlot>, strain_level: u8) -> Option<u8> {
        match Self::spec_latest_harvest(slots, strain_level, slots.len() as int) {
            Some(j) => Some(slots[j].variant_id),
            None => None,
        }
    }

    /// Planting is open until the closing window of the match begins.
    pub open spec fn spec_can_plant(current_ts: i64, end_ts: i64) -> bool {
        current_ts < end_ts - ENDGAME_LOCK_SECONDS
    }

    /// A plant of `strain_level` planted now is ready at the end at the latest.
    pub open spec fn spec_will_be_ready_in_time(
        current_ts: i64,
        end_ts: i64,
        strain_level: u8,
    ) -> bool {
        current_ts + Self::spec_growth_time(strain_level) <= end_ts
    }

    /// Growth time of a strain level.
    pub fn get_growth_time(strain_level: u8) -> (time: i64)
        ensures
            time == Self::spec_growth_time(strain_level),
    {
        match strain_level {
            1 => GROWTH_TIMES[0],
            2 => GROWTH_TIMES[1],
            3 => GROWTH_TIMES[2],
            _ => 0,
        }
    }

    /// Smell per minute of a strain level.
    pub fn get_smell_rate(strain_level: u8) -> (rate: u16)
        ensures
            rate == Self::spec_smell_rate(strain_level),
    {
        match strain_level {
            1 => SMELL_RATES[0],
            2 => SMELL_RATES[1],
            3 => SMELL_RATES[2],
            _ => 0,
        }
    }

    /// Smell of a player's slots at `current_ts`. Only growing plants smell.
    pub fn compute_smell(slots: &[GrowSlot; 6], current_ts: i64) -> (smell: u16)
        ensures
            smell == Self::spec_smell(slots@, current_ts),
    {
        let mut acc: u16 = 0;
        let mut i: usize = 0;
        while i < 6
            invariant
                i <= 6,
                acc == if Self::spec_smell_sum(slots@, current_ts, i as int) > 0xffff {
                    0xffff
                } else {
                    Self::spec_smell_sum(slots@, current_ts, i as int)
                },
                Self::spec_smell_sum(slots@, current_ts, i as int) >= 0,
            decreases 6 - i,
        {
            let slot = slots[i];
            if let PlantState::Growing { strain_level, planted_at } = slot.plant_state {
                let diff: i128 = (current_ts as i128) - (planted_at as i128);
                let elapsed: i128 = if diff < 0 {
                    0
                } else if diff > (i64::MAX as i128) {
                    i64::MAX as i128
                } else {
                    diff
                };
                let minutes: u16 = ((elapsed / 60) % 0x1_0000) as u16;
                let rate: u16 = Self::get_smell_rate(strain_level);
                assert((minutes as int) * (rate as int) <= 0xffff * 4) by (nonlinear_arith)
                    requires
                        0 <= minutes <= 0xffff,
                        0 <= rate <= 4,
                ;
                let product: u32 = (minutes as u32) * (rate as u32);
                let one: u16 = if product > 0xffff {
                    0xffff
                } else {
                    product as u16
                };
                acc = acc.saturating_add(one);
            }
            i += 1;
        }
        acc
    }

    /// The variant of a plant put by `player` into slot `slot_index`, with
    /// `slot_number` as the counter that tells two plantings apart.
    pub fn compute_variant_id(
        match_id: u64,
        player: &PlayerKey,
        slot_index: u8,
        slot_number: u64,
    ) -> (variant: u8)
        ensures
            variant == Self::spec_variant_id(match_id, *player, slot_index, slot_number),
            variant < 3,
    {
        let mut hash: u64 = match_id;
        hash = hash ^ player.folded();
        hash = hash ^ (slot_index as u64);
        hash = hash ^ slot_number;
        hash = mix_first(hash);
        (hash % (VARIANT_COUNT as u64)) as u8
    }

    /// Reputation modifier of a variant.
    pub fn get_variant_rep_bonus(variant_id: u8) -> (bonus: i32)
        ensures
            bonus == Self::spec_variant_rep_bonus(variant_id),
    {
        match variant_id {
            0 => -1,
            1 => 0,
            2 => 1,
            _ => 0,
        }
    }

    /// The variant that a sale of `strain_level` carries: that of the empty
    /// slot of this level that was harvested last.
    pub fn find_variant_for_sale(slots: &[GrowSlot; 6], strain_level: u8) -> (variant: Option<u8>)
        ensures
            variant == Self::spec_variant_for_sale(slots@, strain_level),
            variant is None <==> forall|k: int|
                0 <= k < 6 ==> !(#[trigger] slots@[k]).spec_sale_candidate(strain_level),
            variant is Some ==> exists|j: int|
                0 <= j < 6 && Self::spec_is_latest_harvest(slots@, strain_level, j)
                    && variant == Some(slots@[j].variant_id),
    {
        let mut best: Option<usize> = None;
        let mut i: usize = 0;
        while i < 6
            invariant
                i <= 6,
                match best {
                    Some(j) => Self::spec_latest_harvest(slots@, strain_level, i as int) == Some(
                        j as int,
                    ) && j < i,
                    None => Self::spec_latest_harvest(slots@, strain_level, i as int) is None,
                },
            decreases 6 - i,
        {
            let slot = slots[i];
            let candidate = match slot.plant_state {
                PlantState::Empty => slot.strain_level == strain_level,
                _ => false,
            };
            if candidate {
                match best {
                    Some(j) => {
                        if slots[j].last_harvested_ts <= slot.last_harvested_ts {
                            best = Some(i);
                        }
                    },
                    None => {
                        best = Some(i);
                    },
                }
            }
            i += 1;
        }
        proof {
            lemma_latest_harvest(slots@, strain_level, 6);
            assert(slots@.take(6) =~= slots@);
        }
        match best {
            Some(j) => Some(slots[j].variant_id),
            None => None,
        }
    }

    /// Slot `j` is the most recently harvested candidate for a sale of
    /// `strain_level`: no candidate was harvested later, and none at a
    /// higher index at the same time.
    pub open spec fn spec_is_latest_harvest(slots: Seq<GrowSlot>, strain_level: u8, j: int) -> bool {
        &&& 0 <= j < slots.len()
        &&& slots[j].spec_sale_candidate(strain_level)
        &&& forall|k: int|
            0 <= k < slots.len() && (#[trigger] slots[k]).spec_sale_candidate(strain_level) ==> {
                &&& slots[k].last_harvested_ts <= slots[j].last_harvested_ts
                &&& k > j ==> slots[k].last_harvested_ts < slots[j].last_harvested_ts
            }
    }

    /// Tells whether planting is still open at `current_ts`.
    pub fn can_plant(current_ts: i64, end_ts: i64) -> (r: bool)
        ensures
            r == Self::spec_can_plant(current_ts, end_ts),
    {
        (current_ts as i128) < (end_ts as i128) - (ENDGAME_LOCK_SECONDS as i128)
    }

    /// Tells whether the slot can take a plant: only an empty slot can.
    pub fn is_slot_available(slot: &GrowSlot) -> (r: bool)
        ensures
            r == (slot.plant_state is Empty),
    {
        match slot.plant_state {
            PlantState::Empty => true,
            _ => false,
        }
    }

    /// Tells whether a plant of `strain_level` planted at `current_ts` is
    /// ready when the match ends.
    pub fn will_be_ready_in_time(current_ts: i64, end_ts: i64, strain_level: u8) -> (r: bool)
        ensures
            r == Self::spec_will_be_ready_in_time(current_ts, end_ts, strain_level),
    {
        let growth_time: i64 = Self::get_growth_time(strain_level);
        (current_ts as i128) + (growth_time as i128) <= (end_ts as i128)
    }
}

/// What the search over the first `n` slots finds is the candidate harvested
/// last, the highest index winning among equal times; it finds nothing only
/// where no slot is a candidate.
pub proof fn lemma_latest_harvest(slots: Seq<GrowSlot>, strain_level: u8, n: int)
    requires
        0 <= n <= slots.len(),
    ensures
        match MatchGrowState::spec_latest_harvest(slots, strain_level, n) {
            Some(j) => MatchGrowState::spec_is_latest_harvest(slots.take(n), strain_level, j),
            None => forall|k: int|
                0 <= k < n ==> !(#[trigger] slots[k]).spec_sale_candidate(strain_level),
        },
    decreases n,
{
    if n > 0 {
        lemma_latest_harvest(slots, strain_level, n - 1);
        let earlier = MatchGrowState::spec_latest_harvest(slots, strain_level, n - 1);
        let found = MatchGrowState::spec_latest_harvest(slots, strain_level, n);
        assert forall|k: int| 0 <= k < n implies slots.take(n)[k] == slots[k] by {}
        assert forall|k: int| 0 <= k < n - 1 implies slots.take(n - 1)[k] == slots[k] by {}
        match found {
            Some(j) => {
                assert(MatchGrowState::spec_is_latest_harvest(slots.take(n), strain_level, j));
            },
            None => {},
        }
    }
}

/// Bringing a slot up to date twice at one time changes nothing the second
/// time, and a slot that reads ready stays ready at any later time.
pub proof fn lemma_advance_idempotent(slot: GrowSlot, current_ts: i64, later_ts: i64)
    ensures
        slot.spec_advanced(current_ts).spec_advanced(current_ts) == slot.spec_advanced(current_ts),
        current_ts <= later_ts && slot.spec_advanced(current_ts).plant_state is Ready
            ==> slot.spec_advanced(later_ts) == slot.spec_advanced(current_ts),
{
}

} // verus!
