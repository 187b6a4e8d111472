use droog_game::errors::DroogError;
use droog_game::identity::PlayerKey;
use droog_game::instructions::{
    init_delivery_state, init_match, refresh_delivery_slots, InitMatchBumps,
};
use droog_game::state::{MatchDeliveryState, MatchState};

fn key(fill: u8) -> PlayerKey {
    PlayerKey { bytes: [fill; 32] }
}

fn open_match(match_id: u64, start_ts: i64) -> MatchState {
    let bumps = InitMatchBumps { match_state: 1, stake_state: 2, escrow_token_account: 3 };
    let (match_state, _, _) = init_match(
        [0u8; 32],
        Some(match_id),
        start_ts,
        &key(1),
        &key(2),
        1_000_000,
        start_ts,
        bumps,
    )
    .unwrap();
    match_state
}

fn stored(spots: &[u8]) -> ([u8; 5], u8) {
    let mut places = [255u8; 5];
    for (i, s) in spots.iter().enumerate() {
        places[i] = *s;
    }
    (places, spots.len() as u8)
}

#[test]
fn test_layer_from_index() {
    // Layer 3: 0-2
    assert_eq!(MatchDeliveryState::layer_from_index(0), 3);
    assert_eq!(MatchDeliveryState::layer_from_index(1), 3);
    assert_eq!(MatchDeliveryState::layer_from_index(2), 3);

    // Layer 2: 3-10
    assert_eq!(MatchDeliveryState::layer_from_index(3), 2);
    assert_eq!(MatchDeliveryState::layer_from_index(10), 2);

    // Layer 1: 11-22
    assert_eq!(MatchDeliveryState::layer_from_index(11), 1);
    assert_eq!(MatchDeliveryState::layer_from_index(22), 1);
}

#[test]
fn test_select_delivery_spots_layer_guarantee() {
    // Test multiple seeds to ensure layer guarantees hold
    for seed in [0, 1, 100, 999999, u64::MAX] {
        let (spots, count) = MatchDeliveryState::select_delivery_spots(seed);

        // Must have at least 3 spots (one per layer)
        assert!(count >= 3, "Expected at least 3 spots, got {}", count);

        // Check layer distribution
        let mut has_l1 = false;
        let mut has_l2 = false;
        let mut has_l3 = false;

        for i in 0..count as usize {
            let layer = MatchDeliveryState::layer_from_index(spots[i]);
            match layer {
                1 => has_l1 = true,
                2 => has_l2 = true,
                3 => has_l3 = true,
                _ => panic!("Invalid layer"),
            }
        }

        assert!(has_l1, "Missing Layer 1 spot for seed {}", seed);
        assert!(has_l2, "Missing Layer 2 spot for seed {}", seed);
        assert!(has_l3, "Missing Layer 3 spot for seed {}", seed);
    }
}

#[test]
fn layers_partition_the_customers() {
    let mut counts = [0u32; 4];
    for index in 0u8..23 {
        let layer = MatchDeliveryState::layer_from_index(index);
        assert_eq!(layer, MatchState::layer_from_index(index));
        assert!((1..=3).contains(&layer));
        counts[layer as usize] += 1;
        let expected = if index <= 2 {
            3
        } else if index <= 10 {
            2
        } else {
            1
        };
        assert_eq!(layer, expected);
    }
    assert_eq!(counts[3], 3);
    assert_eq!(counts[2], 8);
    assert_eq!(counts[1], 12);
    // Past the last customer the outer layer goes on.
    assert_eq!(MatchDeliveryState::layer_from_index(23), 1);
    assert_eq!(MatchState::layer_from_index(255), 1);
}

#[test]
fn rotation_bucket_rounds_down() {
    assert_eq!(MatchDeliveryState::get_rotation_bucket(0), 0);
    assert_eq!(MatchDeliveryState::get_rotation_bucket(59), 0);
    assert_eq!(MatchDeliveryState::get_rotation_bucket(60), 1);
    assert_eq!(MatchDeliveryState::get_rotation_bucket(1000), 16);
    assert_eq!(MatchDeliveryState::get_rotation_bucket(1019), 16);
    assert_eq!(MatchDeliveryState::get_rotation_bucket(1020), 17);
    assert_eq!(MatchDeliveryState::get_rotation_bucket(1059), 17);
    assert_eq!(MatchDeliveryState::get_rotation_bucket(1060), 17);
    assert_eq!(MatchDeliveryState::get_rotation_bucket(1079), 17);
    assert_eq!(MatchDeliveryState::get_rotation_bucket(1080), 18);
    assert_eq!(MatchDeliveryState::get_rotation_bucket(i64::MAX), 153722867280912930);
}

#[test]
fn rotation_bucket_before_zero_wraps() {
    assert_eq!(MatchDeliveryState::get_rotation_bucket(-1), u64::MAX);
    assert_eq!(MatchDeliveryState::get_rotation_bucket(-60), u64::MAX);
    assert_eq!(MatchDeliveryState::get_rotation_bucket(-61), u64::MAX - 1);
    assert_eq!(MatchDeliveryState::get_rotation_bucket(i64::MIN), 18293021206428638685);
}

#[test]
fn seed_is_the_same_within_a_bucket_and_differs_in_the_next() {
    let first = MatchDeliveryState::compute_delivery_seed(12345, 1020);
    let again = MatchDeliveryState::compute_delivery_seed(12345, 1020);
    assert_eq!(first, again);
    for ts in 1020..1080 {
        assert_eq!(MatchDeliveryState::compute_delivery_seed(12345, ts), first);
    }
    assert_ne!(MatchDeliveryState::compute_delivery_seed(12345, 1019), first);
    assert_ne!(MatchDeliveryState::compute_delivery_seed(12345, 1080), first);
}

#[test]
fn seed_differs_between_any_two_buckets_tried() {
    let mut seen = Vec::new();
    for bucket in 0..500i64 {
        let seed = MatchDeliveryState::compute_delivery_seed(777, bucket * 60);
        assert!(!seen.contains(&seed));
        seen.push(seed);
    }
}

#[test]
fn seed_has_the_documented_values() {
    assert_eq!(MatchDeliveryState::compute_delivery_seed(12345, 1000), 6077422175244891781);
    assert_eq!(MatchDeliveryState::compute_delivery_seed(12345, 1019), 6077422175244891781);
    assert_eq!(MatchDeliveryState::compute_delivery_seed(12345, 1020), 4439207390541687323);
    assert_eq!(MatchDeliveryState::compute_delivery_seed(12345, 1059), 4439207390541687323);
    assert_eq!(MatchDeliveryState::compute_delivery_seed(12345, 1060), 4439207390541687323);
    assert_eq!(MatchDeliveryState::compute_delivery_seed(12345, 1080), 9324639503349604031);
    assert_eq!(MatchDeliveryState::compute_delivery_seed(12345, 0), 4148954416380290673);
    assert_eq!(MatchDeliveryState::compute_delivery_seed(12345, -1), 11263506339996967371);
    assert_eq!(MatchDeliveryState::compute_delivery_seed(0, 0), 0);
}

#[test]
fn mixing_rounds_have_the_documented_values() {
    assert_eq!(droog_game::mixing::mix_first(0), 0);
    assert_eq!(droog_game::mixing::mix_first(1), 5871781007893383970);
    assert_eq!(droog_game::mixing::mix_second(1), 9202493575981745323);
    assert_eq!(droog_game::mixing::avalanche(12345), 4148954416380290673);
}

#[test]
fn select_spots_has_the_documented_values() {
    let cases: [(u64, &[u8]); 15] = [
        (0, &[0, 3, 11, 4]),
        (1, &[1, 3, 11, 4, 0]),
        (100, &[1, 3, 11, 4, 0]),
        (999999, &[0, 5, 14, 3]),
        (u64::MAX, &[0, 10, 14, 3, 4]),
        (7002664860023442459, &[0, 7, 17, 21]),
        (169801152120619550, &[2, 5, 17, 15]),
        (14791085845388908798, &[1, 3, 13, 6]),
        (10188465816276007787, &[2, 6, 14, 8]),
        (8999366892653588108, &[2, 9, 22, 16, 0]),
        (10499958131665514997, &[0, 4, 12, 17, 8]),
        (14799178230035213023, &[1, 5, 16, 17, 22]),
        (14037279428536751483, &[2, 8, 19, 10, 1]),
        (16255895523639956554, &[1, 7, 11, 10, 3]),
        (10904855999123826993, &[0, 4, 11, 6, 20]),
    ];
    for (seed, spots) in cases {
        assert_eq!(MatchDeliveryState::select_delivery_spots(seed), stored(spots), "seed {}", seed);
    }
}

#[test]
fn select_spots_never_repeats_a_customer() {
    let mut seed: u64 = 0x9e3779b97f4a7c15;
    for _ in 0..20000 {
        seed = seed.wrapping_mul(6364136223846793005).wrapping_add(1442695040888963407);
        let (spots, count) = MatchDeliveryState::select_delivery_spots(seed);
        assert!((3..=5).contains(&count));
        let mut layers = [false; 4];
        for i in 0..5usize {
            if i < count as usize {
                assert!(spots[i] < 23);
                layers[MatchDeliveryState::layer_from_index(spots[i]) as usize] = true;
                for j in 0..i {
                    assert_ne!(spots[i], spots[j], "seed {}", seed);
                }
            } else {
                assert_eq!(spots[i], 255);
            }
        }
        assert!(layers[1] && layers[2] && layers[3]);
        assert_eq!(MatchDeliveryState::layer_from_index(spots[0]), 3);
        assert_eq!(MatchDeliveryState::layer_from_index(spots[1]), 2);
        assert_eq!(MatchDeliveryState::layer_from_index(spots[2]), 1);
    }
}

#[test]
fn customer_is_available_only_among_the_active_places() {
    let state = MatchDeliveryState {
        match_id: 1,
        last_update_ts: 0,
        available_customers: [2, 8, 18, 7, 20],
        active_count: 3,
        bump: 0,
    };
    assert!(state.is_customer_available(2));
    assert!(state.is_customer_available(8));
    assert!(state.is_customer_available(18));
    assert!(!state.is_customer_available(7));
    assert!(!state.is_customer_available(20));
    assert!(!state.is_customer_available(0));
    let overfull = MatchDeliveryState { active_count: 200, ..state };
    assert!(overfull.is_customer_available(20));
    assert!(!overfull.is_customer_available(21));
    let empty = MatchDeliveryState { active_count: 0, ..state };
    assert!(!empty.is_customer_available(2));
}

#[test]
fn layer_distribution_counts_the_active_places() {
    let state = MatchDeliveryState {
        match_id: 1,
        last_update_ts: 0,
        available_customers: [2, 8, 18, 7, 20],
        active_count: 5,
        bump: 0,
    };
    assert_eq!(state.get_layer_distribution(), (2, 2, 1));
    let four = MatchDeliveryState {
        available_customers: [1, 6, 22, 14, 255],
        active_count: 4,
        ..state
    };
    assert_eq!(four.get_layer_distribution(), (2, 1, 1));
    let marked = MatchDeliveryState {
        available_customers: [1, 255, 22, 14, 0],
        active_count: 4,
        ..state
    };
    assert_eq!(marked.get_layer_distribution(), (2, 0, 1));
    let none = MatchDeliveryState { active_count: 0, ..state };
    assert_eq!(none.get_layer_distribution(), (0, 0, 0));
}

#[test]
fn refresh_is_due_after_sixty_units() {
    let state = MatchDeliveryState {
        match_id: 1,
        last_update_ts: 100,
        available_customers: [2, 8, 18, 255, 255],
        active_count: 3,
        bump: 0,
    };
    assert!(!state.needs_refresh(100));
    assert!(!state.needs_refresh(159));
    assert!(state.needs_refresh(160));
    assert!(state.needs_refresh(i64::MAX));
    let late = MatchDeliveryState { last_update_ts: i64::MAX, ..state };
    assert!(!late.needs_refresh(i64::MAX));
    let early = MatchDeliveryState { last_update_ts: i64::MIN, ..state };
    assert!(early.needs_refresh(i64::MIN + 60));
    assert!(!early.needs_refresh(i64::MIN + 59));
}

#[test]
fn delivery_state_starts_with_the_spots_of_its_bucket() {
    let match_state = open_match(7, 0);
    let (state, event) = init_delivery_state(&match_state, 7, 0, 9).unwrap();
    assert_eq!(state.match_id, 7);
    assert_eq!(state.bump, 9);
    assert_eq!(state.last_update_ts, 0);
    assert_eq!(state.available_customers, [2, 8, 18, 7, 20]);
    assert_eq!(state.active_count, 5);
    assert_eq!(event.match_id, 7);
    assert_eq!(event.initial_spots, [2, 8, 18, 7, 20]);
    assert_eq!(event.active_count, 5);
    assert_eq!(event.rotation_bucket, 0);
    assert_eq!(event.timestamp, 0);
}

#[test]
fn delivery_state_is_refused_for_another_match() {
    let match_state = open_match(7, 0);
    assert_eq!(init_delivery_state(&match_state, 8, 0, 9).unwrap_err(), DroogError::MatchIdMismatch);
}

#[test]
fn refresh_too_soon_is_refused_and_changes_nothing() {
    let match_state = open_match(7, 0);
    let (mut state, _) = init_delivery_state(&match_state, 7, 0, 9).unwrap();
    let before = state;
    assert_eq!(
        refresh_delivery_slots(&mut state, &match_state, 59).unwrap_err(),
        DroogError::DeliveryRotationTooSoon
    );
    assert_eq!(state, before);
}

#[test]
fn refresh_rotates_to_the_spots_of_the_new_bucket() {
    let match_state = open_match(7, 0);
    let (mut state, _) = init_delivery_state(&match_state, 7, 0, 9).unwrap();
    let event = refresh_delivery_slots(&mut state, &match_state, 60).unwrap();
    assert_eq!(state.available_customers, [1, 9, 18, 4, 19]);
    assert_eq!(state.active_count, 5);
    assert_eq!(state.last_update_ts, 60);
    assert_eq!(state.match_id, 7);
    assert_eq!(state.bump, 9);
    assert_eq!(event.match_id, 7);
    assert_eq!(event.previous_spots, [2, 8, 18, 7, 20]);
    assert_eq!(event.previous_count, 5);
    assert_eq!(event.new_spots, [1, 9, 18, 4, 19]);
    assert_eq!(event.new_count, 5);
    assert_eq!(event.rotation_bucket, 1);
    assert_eq!(event.timestamp, 60);
    assert_eq!(event.remaining_match_time, 540);

    assert_eq!(
        refresh_delivery_slots(&mut state, &match_state, 119).unwrap_err(),
        DroogError::DeliveryRotationTooSoon
    );
    let event = refresh_delivery_slots(&mut state, &match_state, 125).unwrap();
    assert_eq!(state.available_customers, [1, 4, 20, 18, 3]);
    assert_eq!(state.last_update_ts, 125);
    assert_eq!(event.rotation_bucket, 2);
    assert_eq!(event.remaining_match_time, 475);
}

#[test]
fn refresh_with_four_spots_marks_the_fifth_place_unused() {
    let match_state = open_match(42, 100);
    let (mut state, _) = init_delivery_state(&match_state, 42, 100, 0).unwrap();
    assert_eq!(state.available_customers, [0, 10, 13, 18, 1]);
    refresh_delivery_slots(&mut state, &match_state, 160).unwrap();
    assert_eq!(state.available_customers, [1, 6, 22, 14, 255]);
    assert_eq!(state.active_count, 4);
    assert!(!state.is_customer_available(255));
}

#[test]
fn refresh_is_refused_outside_the_open_match() {
    let mut match_state = open_match(7, 100);
    let (mut state, _) = init_delivery_state(&match_state, 7, 0, 9).unwrap();
    let before = state;
    assert_eq!(
        refresh_delivery_slots(&mut state, &match_state, 99).unwrap_err(),
        DroogError::MatchNotStarted
    );
    assert_eq!(
        refresh_delivery_slots(&mut state, &match_state, 700).unwrap_err(),
        DroogError::MatchEnded
    );
    match_state.is_finalized = true;
    assert_eq!(
        refresh_delivery_slots(&mut state, &match_state, 200).unwrap_err(),
        DroogError::MatchAlreadyFinalized
    );
    let other = open_match(8, 100);
    assert_eq!(
        refresh_delivery_slots(&mut state, &other, 200).unwrap_err(),
        DroogError::MatchIdMismatch
    );
    assert_eq!(state, before);
}

#[test]
fn refresh_reports_a_remaining_time_out_of_range() {
    let mut match_state = open_match(7, 0);
    match_state.start_ts = i64::MIN;
    match_state.end_ts = i64::MAX;
    let (mut state, _) = init_delivery_state(&match_state, 7, i64::MIN, 9).unwrap();
    let before = state;
    assert_eq!(
        refresh_delivery_slots(&mut state, &match_state, -100).unwrap_err(),
        DroogError::CalculationOverflow
    );
    assert_eq!(state, before);
}
