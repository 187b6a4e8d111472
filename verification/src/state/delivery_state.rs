use crate::mixing::{avalanche, lemma_avalanche_injective, spec_avalanche};
use crate::state::customer_state::spec_layer_of;
use vstd::prelude::*;

verus! {

/// Time between two rotations of the delivery spots.
pub const DELIVERY_ROTATION_INTERVAL: i64 = 60;

/// The most delivery spots that are active at a time.
pub const MAX_DELIVERY_SPOTS: usize = 5;

/// First customer index of layer 3.
pub const LAYER3_START: u8 = 0;

/// Last customer index of layer 3.
pub const LAYER3_END: u8 = 2;

/// First customer index of layer 2.
pub const LAYER2_START: u8 = 3;

/// Last customer index of layer 2.
pub const LAYER2_END: u8 = 10;

/// First customer index of layer 1.
pub const LAYER1_START: u8 = 11;

/// Last customer index of layer 1.
pub const LAYER1_END: u8 = 22;

/// The delivery record of a match: which customers can be sold to right now.
#[derive(Clone, Copy, Debug, PartialEq, Eq)]
pub struct MatchDeliveryState {
    /// Identifier of the match this record belongs to.
    pub match_id: u64,
    /// Time of the last rotation.
    pub last_update_ts: i64,
    /// The active customer indices, followed by 255 in every unused place.
    pub available_customers: [u8; 5],
    /// How many places of `available_customers` are in use.
    pub active_count: u8,
    /// Address bump of the record, carried for the storage layer.
    pub bump: u8,
}

/// The index `offset` places into a layer of `size` customers that starts at
/// `start`, counted round the layer.
pub open spec fn spec_ring_pick(start: u8, size: u64, offset: u64) -> u8 {
    (start + offset % size) as u8
}

/// The three spots every rotation has: one of layer 3, one of layer 2 and one
/// of layer 1, taken from the lowest three bytes of the seed.
pub open spec fn spec_base_spots(seed: u64) -> Seq<u8> {
    seq![
        spec_ring_pick(0, 3, seed),
        spec_ring_pick(3, 8, seed >> 8),
        spec_ring_pick(11, 12, seed >> 16),
    ]
}

/// The fourth spot: of layer 2 in one case of three, else of layer 1. Where
/// the pick is taken already, its neighbour in the layer stands in.
pub open spec fn spec_first_bonus(seed: u64, taken: Seq<u8>) -> u8 {
    let bits = seed >> 24;
    if bits % 3 == 0 {
        if !taken.contains(spec_ring_pick(3, 8, bits >> 4)) {
            spec_ring_pick(3, 8, bits >> 4)
        } else {
            spec_ring_pick(3, 8, ((bits >> 4) % 8 + 1) as u64)
        }
    } else {
        if !taken.contains(spec_ring_pick(11, 12, bits >> 4)) {
            spec_ring_pick(11, 12, bits >> 4)
        } else {
            spec_ring_pick(11, 12, ((bits >> 4) % 12 + 1) as u64)
        }
    }
}

/// The pick at `offset` in a layer, or the one two places further where the
/// first is taken; nothing where both are taken.
pub open spec fn spec_pick_or_skip(start: u8, size: u64, offset: u64, taken: Seq<u8>) -> Option<
    u8,
> {
    if !taken.contains(spec_ring_pick(start, size, offset)) {
        Some(spec_ring_pick(start, size, offset))
    } else if !taken.contains(spec_ring_pick(start, size, (offset % size + 2) as u64)) {
        Some(spec_ring_pick(start, size, (offset % size + 2) as u64))
    } else {
        None
    }
}

/// The fifth spot, if there is one: of layer 3, 2 or 1 in two cases of six
/// each. A pick of layer 3 that is taken already is dropped; one of the other
/// layers is replaced once, and dropped where the replacement is taken too.
pub open spec fn spec_second_bonus(seed: u64, taken: Seq<u8>) -> Option<u8> {
    let bits = seed >> 40;
    if bits % 6 < 2 {
        if !taken.contains(spec_ring_pick(0, 3, bits >> 4)) {
            Some(spec_ring_pick(0, 3, bits >> 4))
        } else {
            None
        }
    } else if bits % 6 < 4 {
        spec_pick_or_skip(3, 8, bits >> 4, taken)
    } else {
        spec_pick_or_skip(11, 12, bits >> 4, taken)
    }
}

/// The delivery spots that a seed selects, in the order they are stored.
pub open spec fn spec_delivery_spots(seed: u64) -> Seq<u8> {
    let base = spec_base_spots(seed);
    let four = base.push(spec_first_bonus(seed, base));
    match spec_second_bonus(seed, four) {
        Some(pick) => four.push(pick),
        None => four,
    }
}

/// Every layer has a customer among `spots`.
pub open spec fn spec_covers_all_layers(spots: Seq<u8>) -> bool {
    &&& exists|i: int| 0 <= i < spots.len() && spec_layer_of(#[trigger] spots[i]) == 1
    &&& exists|i: int| 0 <= i < spots.len() && spec_layer_of(#[trigger] spots[i]) == 2
    &&& exists|i: int| 0 <= i < spots.len() && spec_layer_of(#[trigger] spots[i]) == 3
}

/// `spots` is a set of delivery spots as a rotation may leave it: three to
/// five customer indices, no index twice, every layer present.
pub open spec fn spec_valid_spots(spots: Seq<u8>) -> bool {
    &&& 3 <= spots.len() <= 5
    &&& forall|i: int| 0 <= i < spots.len() ==> #[trigger] spots[i] < 23
    &&& spots.no_duplicates()
    &&& spec_covers_all_layers(spots)
}

/// How many of the first `n` entries are customers of `layer`; the unused
/// mark 255 counts for no layer.
pub open spec fn spec_layer_count(spots: Seq<u8>, layer: u8, n: int) -> int
    decreases n,
{
    if n <= 0 {
        0
    } else {
        spec_layer_count(spots, layer, n - 1) + if spots[n - 1] != 255 && spec_layer_of(
            spots[n - 1],
        ) == layer {
            1int
        } else {
            0int
        }
    }
}

/// The number of the rotation that `current_ts` falls into: the time divided
/// by the rotation interval, rounded down, as an unsigned 64-bit number (a
/// time before 0 wraps round).
pub open spec fn spec_rotation_bucket(current_ts: i64) -> u64 {
    (((current_ts as int) / 60) % 0x1_0000_0000_0000_0000) as u64
}

/// The seed of the rotation that `current_ts` falls into.
pub open spec fn spec_delivery_seed(match_id: u64, current_ts: i64) -> u64 {
    spec_avalanche(match_id ^ spec_rotation_bucket(current_ts))
}

impl View for MatchDeliveryState {
    type V = Seq<u8>;

    /// The record as the sequence of the customers that can be sold to: the
    /// places in use, in their order.
    open spec fn view(&self) -> Seq<u8> {
        self.available_customers@.take(
            if self.active_count <= 5 {
                self.active_count as int
            } else {
                5
            },
        )
    }
}

impl MatchDeliveryState {
    /// Mark of an unused place in `available_customers`.
    pub const INVALID_INDEX: u8 = 255;

    /// The record holds a valid set of spots, and 255 in every unused place.
    pub open spec fn wf(self) -> bool {
        &&& self.active_count <= 5
        &&& spec_valid_spots(self@)
        &&& forall|i: int| self.active_count <= i < 5 ==> self.available_customers@[i] == 255
    }

    /// The record is as a rotation at `current_ts` leaves it: the spots are
    /// those of the seed of that time, and the time is noted.
    pub open spec fn spec_holds_rotation(self, current_ts: i64) -> bool {
        let spots = spec_delivery_spots(spec_delivery_seed(self.match_id, current_ts));
        &&& self.last_update_ts == current_ts
        &&& self.available_customers@ == spec_stored_spots(spots)
        &&& self.active_count == spots.len()
    }

    /// `self` is `before` after a rotation at `current_ts`.
    pub open spec fn spec_is_rotation_of(
        self,
        before: MatchDeliveryState,
        current_ts: i64,
    ) -> bool {
        &&& self.match_id == before.match_id
        &&& self.bump == before.bump
        &&& self.spec_holds_rotation(current_ts)
    }

    /// Tells whether the customer is among the active delivery spots.
    pub fn is_customer_available(&self, customer_index: u8) -> (r: bool)
        ensures
            r == self@.contains(customer_index),
    {
        let mut i: usize = 0;
        while i < 5 && i < self.active_count as usize
            invariant
                i <= 5,
                i <= self.active_count,
                forall|j: int| 0 <= j < i ==> self.available_customers@[j] != customer_index,
            decreases 5 - i,
        {
            if self.available_customers[i] == customer_index {
                assert(self@[i as int] == customer_index);
                return true;
            }
            i += 1;
        }
        false
    }

    /// The seed of the rotation that `current_ts` falls into. It depends on
    /// the match and the number of the rotation alone.
    pub fn compute_delivery_seed(match_id: u64, current_ts: i64) -> (seed: u64)
        ensures
            seed == spec_delivery_seed(match_id, current_ts),
    {
        let timestamp_bucket: u64 = Self::get_rotation_bucket(current_ts);
        avalanche(match_id ^ timestamp_bucket)
    }

    /// Selects the delivery spots of a seed: the five places, and how many of
    /// them are in use. The first three spots are one of each layer; the
    /// fourth always exists; the fifth may be missing.
    pub fn select_delivery_spots(seed: u64) -> (selected: ([u8; 5], u8))
        ensures
            selected.1 == spec_delivery_spots(seed).len(),
            selected.0@.take(selected.1 as int) == spec_delivery_spots(seed),
            selected.0@ == spec_stored_spots(spec_delivery_spots(seed)),
            forall|i: int| selected.1 <= i < 5 ==> selected.0@[i] == 255,
            spec_valid_spots(selected.0@.take(selected.1 as int)),
            4 <= selected.1 <= 5,
    {
        let mut spots: [u8; 5] = [Self::INVALID_INDEX;5];
        let mut count: u8 = 0;

        let layer3_count: u64 = (LAYER3_END - LAYER3_START + 1) as u64;
        let layer3_pick: u8 = LAYER3_START + ((seed % layer3_count) as u8);
        spots[count as usize] = layer3_pick;
        count += 1;

        let layer2_count: u64 = (LAYER2_END - LAYER2_START + 1) as u64;
        let layer2_pick: u8 = LAYER2_START + (((seed >> 8) % layer2_count) as u8);
        spots[count as usize] = layer2_pick;
        count += 1;

        let layer1_count: u64 = (LAYER1_END - LAYER1_START + 1) as u64;
        let layer1_pick: u8 = LAYER1_START + (((seed >> 16) % layer1_count) as u8);
        spots[count as usize] = layer1_pick;
        count += 1;

        assert(spots@.take(3) =~= spec_base_spots(seed));

        let additional1_seed: u64 = seed >> 24;
        if additional1_seed % 3 == 0 {
            let l2_offset: u8 = ((additional1_seed >> 4) % layer2_count) as u8;
            let pick: u8 = LAYER2_START + l2_offset;
            if !Self::contains_spot(&spots, count, pick) {
                spots[count as usize] = pick;
                count += 1;
            } else {
                let fallback: u8 = LAYER2_START + ((l2_offset + 1) % (layer2_count as u8));
                spots[count as usize] = fallback;
                count += 1;
            }
        } else {
            let l1_offset: u8 = ((additional1_seed >> 4) % layer1_count) as u8;
            let pick: u8 = LAYER1_START + l1_offset;
            if !Self::contains_spot(&spots, count, pick) {
                spots[count as usize] = pick;
                count += 1;
            } else {
                let fallback: u8 = LAYER1_START + ((l1_offset + 1) % (layer1_count as u8));
                spots[count as usize] = fallback;
                count += 1;
            }
        }

        let ghost four = spec_base_spots(seed).push(
            spec_first_bonus(seed, spec_base_spots(seed)),
        );
        assert(spots@.take(4) =~= four);

        let additional2_seed: u64 = seed >> 40;
        let layer_choice: u64 = additional2_seed % 6;

        if layer_choice < 2 {
            let l3_offset: u8 = ((additional2_seed >> 4) % layer3_count) as u8;
            let pick: u8 = LAYER3_START + l3_offset;
            if !Self::contains_spot(&spots, count, pick) {
                spots[count as usize] = pick;
                count += 1;
            }
        } else if layer_choice < 4 {
            let l2_offset: u8 = ((additional2_seed >> 4) % layer2_count) as u8;
            let pick: u8 = LAYER2_START + l2_offset;
            if !Self::contains_spot(&spots, count, pick) {
                spots[count as usize] = pick;
                count += 1;
            } else {
                let fallback: u8 = LAYER2_START + ((l2_offset + 2) % (layer2_count as u8));
                if !Self::contains_spot(&spots, count, fallback) {
                    spots[count as usize] = fallback;
                    count += 1;
                }
            }
        } else {
            let l1_offset: u8 = ((additional2_seed >> 4) % layer1_count) as u8;
            let pick: u8 = LAYER1_START + l1_offset;
            if !Self::contains_spot(&spots, count, pick) {
                spots[count as usize] = pick;
                count += 1;
            } else {
                let fallback: u8 = LAYER1_START + ((l1_offset + 2) % (layer1_count as u8));
                if !Self::contains_spot(&spots, count, fallback) {
                    spots[count as usize] = fallback;
                    count += 1;
                }
            }
        }

        proof {
            lemma_delivery_spots_valid(seed);
            assert(spots@.take(count as int) =~= spec_delivery_spots(seed));
            assert(spots@ =~= spec_stored_spots(spec_delivery_spots(seed)));
        }
        (spots, count)
    }

    fn contains_spot(spots: &[u8; 5], count: u8, value: u8) -> (r: bool)
        requires
            count <= 5,
        ensures
            r == spots@.take(count as int).contains(value),
    {
        let mut i: usize = 0;
        while i < count as usize
            invariant
                i <= count <= 5,
                forall|j: int| 0 <= j < i ==> spots@[j] != value,
            decreases count - i,
        {
            if spots[i] == value {
                assert(spots@.take(count as int)[i as int] == value);
                return true;
            }
            i += 1;
        }
        false
    }

    /// Tells whether a rotation is due: the interval has passed since the
    /// last one.
    pub fn needs_refresh(&self, current_ts: i64) -> (r: bool)
        ensures
            r == (current_ts >= self.last_update_ts + DELIVERY_ROTATION_INTERVAL),
    {
        (current_ts as i128) >= (self.last_update_ts as i128) + (DELIVERY_ROTATION_INTERVAL as i128)
    }

    /// The number of the rotation that `current_ts` falls into.
    pub fn get_rotation_bucket(current_ts: i64) -> (bucket: u64)
        ensures
            bucket == spec_rotation_bucket(current_ts),
    {
        if current_ts >= 0 {
            (current_ts / DELIVERY_ROTATION_INTERVAL) as u64
        } else {
            let below: u64 = (-(current_ts + 1)) as u64;
            let magnitude: u64 = below / 60 + 1;
            (u64::MAX - magnitude) + 1
        }
    }

    /// The layer of a customer index.
    pub fn layer_from_index(customer_index: u8) -> (layer: u8)
        ensures
            layer == spec_layer_of(customer_index),
            1 <= layer <= 3,
    {
        if customer_index <= LAYER3_END {
            3
        } else if customer_index <= LAYER2_END {
            2
        } else {
            1
        }
    }

    /// How many active spots each layer has, layer 1 first.
    pub fn get_layer_distribution(&self) -> (counts: (u8, u8, u8))
        ensures
            counts.0 == spec_layer_count(self@, 1, self@.len() as int),
            counts.1 == spec_layer_count(self@, 2, self@.len() as int),
            counts.2 == spec_layer_count(self@, 3, self@.len() as int),
            self.wf() ==> counts.0 >= 1 && counts.1 >= 1 && counts.2 >= 1 && counts.0 + counts.1
                + counts.2 == self.active_count,
    {
        let mut l1: u8 = 0;
        let mut l2: u8 = 0;
        let mut l3: u8 = 0;
        let ghost active = self@;
        let mut i: usize = 0;
        while i < 5 && i < self.active_count as usize
            invariant
                i <= 5,
                i <= self.active_count,
                active == self@,
                l1 == spec_layer_count(active, 1, i as int),
                l2 == spec_layer_count(active, 2, i as int),
                l3 == spec_layer_count(active, 3, i as int),
                l1 <= i && l2 <= i && l3 <= i,
            decreases 5 - i,
        {
            let idx: u8 = self.available_customers[i];
            assert(active[i as int] == idx);
            if idx != Self::INVALID_INDEX {
                let layer: u8 = Self::layer_from_index(idx);
                if layer == 1 {
                    l1 += 1;
                } else if layer == 2 {
                    l2 += 1;
                } else {
                    l3 += 1;
                }
            }
            i += 1;
        }
        proof {
            if self.wf() {
                lemma_layer_counts(active, active.len() as int);
            }
        }
        (l1, l2, l3)
    }
}

/// The five places that hold `spots`: the spots in order, then 255.
pub open spec fn spec_stored_spots(spots: Seq<u8>) -> Seq<u8> {
    Seq::new(
        5,
        |i: int|
            if i < spots.len() {
                spots[i]
            } else {
                255u8
            },
    )
}

/// Whatever the seed, the selected spots are a valid set: four or five
/// customer indices, no index twice, and every layer among them.
pub proof fn lemma_delivery_spots_valid(seed: u64)
    ensures
        spec_valid_spots(spec_delivery_spots(seed)),
        4 <= spec_delivery_spots(seed).len() <= 5,
        spec_delivery_spots(seed).take(3) == spec_base_spots(seed),
        spec_layer_of(spec_delivery_spots(seed)[0]) == 3,
        spec_layer_of(spec_delivery_spots(seed)[1]) == 2,
        spec_layer_of(spec_delivery_spots(seed)[2]) == 1,
{
    let base = spec_base_spots(seed);
    let bonus = spec_first_bonus(seed, base);
    let four = base.push(bonus);
    let spots = spec_delivery_spots(seed);
    assert(base.len() == 3);
    assert(base[0] <= 2 && 3 <= base[1] <= 10 && 11 <= base[2] <= 22);
    assert(!base.contains(bonus) && 3 <= bonus <= 22) by {
        let bits = seed >> 24;
        if bits % 3 == 0 {
            let pick = spec_ring_pick(3, 8, bits >> 4);
            if base.contains(pick) {
                assert(pick == base[1]);
            }
        } else {
            let pick = spec_ring_pick(11, 12, bits >> 4);
            if base.contains(pick) {
                assert(pick == base[2]);
            }
        }
    }
    assert(four.no_duplicates());
    assert(forall|i: int| 0 <= i < 4 ==> #[trigger] four[i] < 23);
    match spec_second_bonus(seed, four) {
        Some(pick) => {
            assert(!four.contains(pick));
            assert(pick < 23);
            assert(spots =~= four.push(pick));
            assert(spots.no_duplicates()) by {
                assert forall|i: int, j: int|
                    0 <= i < spots.len() && 0 <= j < spots.len() && i != j implies spots[i]
                    != spots[j] by {
                    if i == 4 {
                        assert(four[j] == spots[j]);
                    } else if j == 4 {
                        assert(four[i] == spots[i]);
                    }
                }
            }
        },
        None => {
            assert(spots =~= four);
        },
    }
    assert(spots[0] == base[0] && spots[1] == base[1] && spots[2] == base[2]);
    assert(spots.take(3) =~= base);
    assert(spec_layer_of(spots[0]) == 3);
    assert(spec_layer_of(spots[1]) == 2);
    assert(spec_layer_of(spots[2]) == 1);
}

/// Among valid spots every layer counts at least one, and the three counts
/// add up to the number of spots.
pub proof fn lemma_layer_counts(spots: Seq<u8>, n: int)
    requires
        0 <= n <= spots.len(),
        forall|i: int| 0 <= i < spots.len() ==> #[trigger] spots[i] < 23,
    ensures
        spec_layer_count(spots, 1, n) + spec_layer_count(spots, 2, n) + spec_layer_count(
            spots,
            3,
            n,
        ) == n,
        forall|layer: u8, i: int|
            0 <= i < n && spec_layer_of(#[trigger] spots[i]) == layer ==> #[trigger] spec_layer_count(
                spots,
                layer,
                n,
            ) >= 1,
        forall|layer: u8| #[trigger] spec_layer_count(spots, layer, n) >= 0,
    decreases n,
{
    if n > 0 {
        lemma_layer_counts(spots, n - 1);
        assert(spots[n - 1] < 23);
    }
    assert forall|layer: u8| #[trigger] spec_layer_count(spots, layer, n) >= 0 by {
        if n > 0 {
            assert(spec_layer_count(spots, layer, n - 1) >= 0);
        }
    }
}

proof fn lemma_xor_cancels(a: u64, x: u64, y: u64)
    by (bit_vector)
    ensures
        a ^ x == a ^ y ==> x == y,
{
}

/// Two times of one match have the same seed exactly when they fall into the
/// same rotation. Times whose quotients by the interval agree do; a time and
/// the time one interval later never do.
pub proof fn lemma_seed_follows_bucket(match_id: u64, first_ts: i64, second_ts: i64)
    ensures
        spec_delivery_seed(match_id, first_ts) == spec_delivery_seed(match_id, second_ts)
            <==> spec_rotation_bucket(first_ts) == spec_rotation_bucket(second_ts),
        spec_rotation_bucket(first_ts) == spec_rotation_bucket(second_ts) <==> (first_ts as int)
            / 60 == (second_ts as int) / 60,
        second_ts == first_ts + 60 ==> spec_delivery_seed(match_id, first_ts)
            != spec_delivery_seed(match_id, second_ts),
{
    let b1 = spec_rotation_bucket(first_ts);
    let b2 = spec_rotation_bucket(second_ts);
    lemma_avalanche_injective(match_id ^ b1, match_id ^ b2);
    lemma_xor_cancels(match_id, b1, b2);
}

} // verus!
