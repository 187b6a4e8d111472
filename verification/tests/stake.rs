use droog_game::errors::DroogError;
use droog_game::identity::PlayerKey;
use droog_game::instructions::{
    cancel_match, finalize_match, init_match, join_match_with_stake, InitMatchBumps,
    MatchFinalizedEvent, START_LEAD_SECONDS,
};
use droog_game::state::{
    CustomerState, MatchActivatedEvent, MatchCancelledEvent, MatchStakeInitializedEvent,
    MatchStakeState, MatchState, MatchStatus, StakePayoutEvent, BURN_PERCENTAGE,
    CANCEL_TIMEOUT_SECONDS, MATCH_DURATION_SECONDS, STAKE_AMOUNT, TOKEN_DECIMALS,
};

fn key(fill: u8) -> PlayerKey {
    PlayerKey { bytes: [fill; 32] }
}

fn bumps() -> InitMatchBumps {
    InitMatchBumps { match_state: 250, stake_state: 251, escrow_token_account: 252 }
}

fn staked(match_id: u64, start_ts: i64, now: i64) -> (MatchState, MatchStakeState) {
    let (match_state, stake_state, _) =
        init_match([5u8; 32], Some(match_id), start_ts, &key(1), &key(2), STAKE_AMOUNT, now, bumps())
            .unwrap();
    (match_state, stake_state)
}

#[test]
fn constants_of_the_stake_rules() {
    assert_eq!(STAKE_AMOUNT, 1_000_000);
    assert_eq!(BURN_PERCENTAGE, 10);
    assert_eq!(TOKEN_DECIMALS, 6);
    assert_eq!(CANCEL_TIMEOUT_SECONDS, 300);
    assert_eq!(MATCH_DURATION_SECONDS, 600);
    assert_eq!(START_LEAD_SECONDS, 60);
    assert_eq!(MatchStatus::default(), MatchStatus::Pending);
}

#[test]
fn init_sets_up_match_and_pending_stake() {
    let hash = [5u8; 32];
    let (match_state, stake_state, event) =
        init_match(hash, Some(77), 1000, &key(1), &key(2), STAKE_AMOUNT, 990, bumps()).unwrap();
    assert_eq!(match_state.match_id, 77);
    assert_eq!(match_state.match_id_hash, hash);
    assert_eq!(match_state.start_ts, 1000);
    assert_eq!(match_state.end_ts, 1600);
    assert_eq!(match_state.player_a, key(1));
    assert_eq!(match_state.player_b, key(2));
    assert_eq!(match_state.player_a_sales, 0);
    assert_eq!(match_state.player_b_sales, 0);
    assert_eq!(match_state.player_a_reputation, 0);
    assert_eq!(match_state.player_b_reputation, 0);
    assert!(!match_state.is_finalized);
    assert_eq!(match_state.bump, 250);
    for i in 0..23usize {
        assert_eq!(
            match_state.customers[i],
            CustomerState {
                layer: MatchState::layer_from_index(i as u8),
                last_served_ts: 0,
                total_serves: 0,
                last_served_by: None,
            }
        );
    }
    assert_eq!(match_state.customers[0].layer, 3);
    assert_eq!(match_state.customers[2].layer, 3);
    assert_eq!(match_state.customers[3].layer, 2);
    assert_eq!(match_state.customers[10].layer, 2);
    assert_eq!(match_state.customers[11].layer, 1);
    assert_eq!(match_state.customers[22].layer, 1);
    assert_eq!(
        stake_state,
        MatchStakeState {
            match_id: 77,
            match_id_hash: hash,
            player_a: key(1),
            player_b: key(2),
            status: MatchStatus::Pending,
            player_a_escrowed: 1_000_000,
            player_b_escrowed: 0,
            created_at: 990,
            bump: 251,
            escrow_bump: 252,
        }
    );
    assert_eq!(
        event,
        MatchStakeInitializedEvent {
            match_id: 77,
            player_a: key(1),
            player_b: key(2),
            amount_escrowed: 1_000_000,
            timestamp: 990,
        }
    );
}

#[test]
fn init_takes_the_match_id_from_the_hash_where_none_is_given() {
    let mut hash = [0u8; 32];
    for i in 0..32 {
        hash[i] = i as u8;
    }
    let (match_state, stake_state, event) =
        init_match(hash, None, 0, &key(1), &key(2), STAKE_AMOUNT, 0, bumps()).unwrap();
    assert_eq!(match_state.match_id, 506097522914230528);
    assert_eq!(match_state.match_id, u64::from_le_bytes([0, 1, 2, 3, 4, 5, 6, 7]));
    assert_eq!(stake_state.match_id, 506097522914230528);
    assert_eq!(event.match_id, 506097522914230528);
    let (match_state, _, _) =
        init_match([255u8; 32], None, 0, &key(1), &key(2), STAKE_AMOUNT, 0, bumps()).unwrap();
    assert_eq!(match_state.match_id, u64::MAX);
}

#[test]
fn init_is_refused_with_the_first_reason_that_holds() {
    let hash = [5u8; 32];
    let refused = |start_ts: i64, a: u8, b: u8, balance: u64, now: i64| {
        init_match(hash, Some(1), start_ts, &key(a), &key(b), balance, now, bumps()).unwrap_err()
    };
    assert_eq!(refused(0, 2, 1, STAKE_AMOUNT, 0), DroogError::InvalidPlayerOrder);
    assert_eq!(refused(0, 1, 1, STAKE_AMOUNT, 0), DroogError::InvalidPlayerOrder);
    assert_eq!(refused(1000, 2, 1, 0, 0), DroogError::InvalidPlayerOrder);
    assert_eq!(refused(61, 1, 2, STAKE_AMOUNT, 0), DroogError::MatchNotStarted);
    assert_eq!(refused(61, 1, 2, 0, 0), DroogError::MatchNotStarted);
    assert_eq!(refused(i64::MAX, 1, 2, STAKE_AMOUNT, i64::MAX - 61), DroogError::MatchNotStarted);
    assert_eq!(refused(60, 1, 2, STAKE_AMOUNT - 1, 0), DroogError::InsufficientStakeBalance);
    assert_eq!(refused(0, 1, 2, 0, 0), DroogError::InsufficientStakeBalance);
    assert_eq!(refused(i64::MAX, 1, 2, STAKE_AMOUNT, i64::MAX), DroogError::CalculationOverflow);
    assert_eq!(
        refused(i64::MAX - 599, 1, 2, STAKE_AMOUNT, i64::MAX),
        DroogError::CalculationOverflow
    );
    // A start in the past, or up to the lead ahead, is accepted.
    assert!(init_match(hash, Some(1), 60, &key(1), &key(2), STAKE_AMOUNT, 0, bumps()).is_ok());
    assert!(init_match(hash, Some(1), -5000, &key(1), &key(2), u64::MAX, 0, bumps()).is_ok());
    assert!(
        init_match(hash, Some(1), i64::MAX - 600, &key(1), &key(2), STAKE_AMOUNT, i64::MAX, bumps())
            .is_ok()
    );
}

#[test]
fn player_order_goes_by_the_first_byte_that_differs() {
    let mut low = [7u8; 32];
    let mut high = [7u8; 32];
    low[31] = 1;
    high[31] = 2;
    let low = PlayerKey { bytes: low };
    let high = PlayerKey { bytes: high };
    assert!(init_match([0; 32], Some(1), 0, &low, &high, STAKE_AMOUNT, 0, bumps()).is_ok());
    assert_eq!(
        init_match([0; 32], Some(1), 0, &high, &low, STAKE_AMOUNT, 0, bumps()).unwrap_err(),
        DroogError::InvalidPlayerOrder
    );
    let mut first = [0u8; 32];
    first[0] = 1;
    let mut rest = [255u8; 32];
    rest[0] = 0;
    let first = PlayerKey { bytes: first };
    let rest = PlayerKey { bytes: rest };
    assert!(init_match([0; 32], Some(1), 0, &rest, &first, STAKE_AMOUNT, 0, bumps()).is_ok());
}

#[test]
fn burn_is_a_tenth_rounded_down() {
    assert_eq!(MatchStakeState::calculate_burn_amount(2_000_000), 200_000);
    assert_eq!(MatchStakeState::calculate_burn_amount(1_000_000), 100_000);
    assert_eq!(MatchStakeState::calculate_burn_amount(0), 0);
    assert_eq!(MatchStakeState::calculate_burn_amount(9), 0);
    assert_eq!(MatchStakeState::calculate_burn_amount(10), 1);
    assert_eq!(MatchStakeState::calculate_burn_amount(19), 1);
    assert_eq!(MatchStakeState::calculate_burn_amount(1_999_999), 199_999);
    assert_eq!(MatchStakeState::calculate_burn_amount(u64::MAX / 10), 184467440737095516);
    assert_eq!(MatchStakeState::calculate_burn_amount(u64::MAX / 10 + 1), 184467440737095516);
    assert_eq!(MatchStakeState::calculate_burn_amount(u64::MAX), 1844674407370955161);
}

#[test]
fn stake_is_joined_burned_and_paid_to_the_winner() {
    let (mut match_state, mut stake_state) = staked(77, 0, 0);
    assert_eq!(stake_state.status, MatchStatus::Pending);
    assert!(!stake_state.can_activate());
    assert!(!stake_state.can_finalize());

    let activated = join_match_with_stake(&mut stake_state, &key(2), STAKE_AMOUNT, 20).unwrap();
    assert_eq!(
        activated,
        MatchActivatedEvent {
            match_id: 77,
            player_a: key(1),
            player_b: key(2),
            total_escrowed: 2_000_000,
            amount_burned: 200_000,
            final_pot: 1_800_000,
            timestamp: 20,
        }
    );
    assert_eq!(activated.amount_burned, 2 * STAKE_AMOUNT * 10 / 100);
    assert_eq!(activated.final_pot, 2 * STAKE_AMOUNT - activated.amount_burned);
    assert_eq!(stake_state.status, MatchStatus::Active);
    assert_eq!(stake_state.player_a_escrowed, STAKE_AMOUNT);
    assert_eq!(stake_state.player_b_escrowed, STAKE_AMOUNT);
    assert!(stake_state.can_finalize());

    match_state.player_a_sales = 5;
    match_state.player_b_sales = 3;
    match_state.player_a_reputation = 7;
    match_state.player_b_reputation = -4;
    let before = match_state;
    let (finalized, payout) =
        finalize_match(&mut match_state, &mut stake_state, &key(2), &key(1), 1_800_000, 600).unwrap();
    assert_eq!(
        finalized,
        MatchFinalizedEvent {
            match_id: 77,
            finalized_at: 600,
            player_a_sales: 5,
            player_b_sales: 3,
            player_a_reputation: 7,
            player_b_reputation: -4,
        }
    );
    assert_eq!(
        payout,
        StakePayoutEvent {
            match_id: 77,
            winner: key(1),
            loser: key(2),
            amount: 1_800_000,
            winner_sales: 5,
            loser_sales: 3,
            timestamp: 600,
        }
    );
    assert_eq!(match_state, MatchState { is_finalized: true, ..before });
    assert_eq!(stake_state.status, MatchStatus::Finalized);
    assert_eq!(stake_state.player_a_escrowed, STAKE_AMOUNT);
    assert_eq!(stake_state.player_b_escrowed, STAKE_AMOUNT);

    // Nothing is settled twice.
    let closed_match = match_state;
    let closed_stake = stake_state;
    assert_eq!(
        finalize_match(&mut match_state, &mut stake_state, &key(1), &key(1), 0, 601).unwrap_err(),
        DroogError::MatchNotActive
    );
    assert_eq!(match_state, closed_match);
    assert_eq!(stake_state, closed_stake);
}

#[test]
fn payout_is_the_balance_the_escrow_holds() {
    for balance in [0u64, 1, 1_799_999, 5_000_000, u64::MAX] {
        let (mut match_state, mut stake_state) = staked(77, 0, 0);
        join_match_with_stake(&mut stake_state, &key(2), STAKE_AMOUNT, 20).unwrap();
        let (_, payout) =
            finalize_match(&mut match_state, &mut stake_state, &key(1), &key(1), balance, 700)
                .unwrap();
        assert_eq!(payout.amount, balance);
    }
}

#[test]
fn tie_goes_to_player_a_and_more_sales_win() {
    let (mut match_state, mut stake_state) = staked(77, 0, 0);
    join_match_with_stake(&mut stake_state, &key(2), STAKE_AMOUNT, 20).unwrap();
    match_state.player_a_sales = 4;
    match_state.player_b_sales = 4;
    let mut tied_match = match_state;
    let mut tied_stake = stake_state;
    assert_eq!(
        finalize_match(&mut tied_match, &mut tied_stake, &key(1), &key(2), 9, 600).unwrap_err(),
        DroogError::InvalidPlayer
    );
    assert_eq!(tied_match, match_state);
    assert_eq!(tied_stake, stake_state);
    let (_, payout) =
        finalize_match(&mut tied_match, &mut tied_stake, &key(1), &key(1), 9, 600).unwrap();
    assert_eq!(payout.winner, key(1));
    assert_eq!(payout.loser, key(2));
    assert_eq!((payout.winner_sales, payout.loser_sales), (4, 4));

    match_state.player_b_sales = 5;
    let mut won_match = match_state;
    let mut won_stake = stake_state;
    assert_eq!(
        finalize_match(&mut won_match, &mut won_stake, &key(1), &key(1), 9, 600).unwrap_err(),
        DroogError::InvalidPlayer
    );
    let (_, payout) =
        finalize_match(&mut won_match, &mut won_stake, &key(1), &key(2), 9, 600).unwrap();
    assert_eq!(payout.winner, key(2));
    assert_eq!(payout.loser, key(1));
    assert_eq!((payout.winner_sales, payout.loser_sales), (5, 4));
}

#[test]
fn finalize_is_refused_with_the_first_reason_that_holds() {
    let (match_state, mut stake_state) = staked(77, 0, 0);
    let pending = stake_state;
    join_match_with_stake(&mut stake_state, &key(2), STAKE_AMOUNT, 20).unwrap();
    let active = stake_state;
    let mut finalized = match_state;
    finalized.is_finalized = true;
    let mut other_id = active;
    other_id.match_id = 78;
    let mut cancelled = pending;
    cancelled.status = MatchStatus::Cancelled;

    let cases: Vec<(MatchState, MatchStakeState, u8, u8, i64, DroogError)> = vec![
        (match_state, other_id, 1, 1, 600, DroogError::MatchIdMismatch),
        (match_state, pending, 1, 1, 600, DroogError::MatchNotActive),
        (match_state, cancelled, 1, 1, 600, DroogError::MatchNotActive),
        (finalized, pending, 1, 1, 600, DroogError::MatchNotActive),
        (match_state, active, 1, 3, 600, DroogError::InvalidPlayer),
        (finalized, active, 1, 3, 600, DroogError::InvalidPlayer),
        (finalized, active, 1, 1, 600, DroogError::MatchAlreadyFinalized),
        (finalized, active, 3, 1, 0, DroogError::MatchAlreadyFinalized),
        (match_state, active, 1, 1, 599, DroogError::MatchFinalizationTooEarly),
        (match_state, active, 3, 2, 599, DroogError::MatchFinalizationTooEarly),
        (match_state, active, 3, 1, 600, DroogError::UnauthorizedFinalization),
        (match_state, active, 3, 2, 600, DroogError::UnauthorizedFinalization),
        (match_state, active, 1, 2, 600, DroogError::InvalidPlayer),
    ];
    for (m, s, caller, owner, ts, error) in cases {
        let mut match_after = m;
        let mut stake_after = s;
        assert_eq!(
            finalize_match(&mut match_after, &mut stake_after, &key(caller), &key(owner), 5, ts)
                .unwrap_err(),
            error
        );
        assert_eq!(match_after, m);
        assert_eq!(stake_after, s);
    }
}

#[test]
fn join_is_refused_with_the_first_reason_that_holds() {
    let (_, pending) = staked(77, 0, 0);
    let mut active = pending;
    join_match_with_stake(&mut active, &key(2), STAKE_AMOUNT, 20).unwrap();
    let mut half = pending;
    half.player_b_escrowed = 1;
    let mut huge = pending;
    huge.player_a_escrowed = u64::MAX - STAKE_AMOUNT + 1;
    let mut finalized = active;
    finalized.status = MatchStatus::Finalized;
    let mut cancelled = pending;
    cancelled.status = MatchStatus::Cancelled;

    let cases: Vec<(MatchStakeState, u8, u64, DroogError)> = vec![
        (pending, 1, STAKE_AMOUNT, DroogError::InvalidPlayer),
        (pending, 3, STAKE_AMOUNT, DroogError::InvalidPlayer),
        (active, 3, 0, DroogError::InvalidPlayer),
        (active, 2, STAKE_AMOUNT, DroogError::MatchNotPending),
        (finalized, 2, STAKE_AMOUNT, DroogError::MatchNotPending),
        (cancelled, 2, STAKE_AMOUNT, DroogError::MatchNotPending),
        (half, 2, STAKE_AMOUNT, DroogError::AlreadyStaked),
        (half, 2, 0, DroogError::AlreadyStaked),
        (pending, 2, STAKE_AMOUNT - 1, DroogError::InsufficientStakeBalance),
        (pending, 2, 0, DroogError::InsufficientStakeBalance),
        (huge, 2, 0, DroogError::InsufficientStakeBalance),
        (huge, 2, STAKE_AMOUNT, DroogError::CalculationOverflow),
    ];
    for (s, who, balance, error) in cases {
        let mut after = s;
        assert_eq!(join_match_with_stake(&mut after, &key(who), balance, 20).unwrap_err(), error);
        assert_eq!(after, s);
    }
}

#[test]
fn join_burns_a_tenth_of_what_is_on_the_books() {
    let (_, pending) = staked(77, 0, 0);
    let mut odd = pending;
    odd.player_a_escrowed = 5;
    let event = join_match_with_stake(&mut odd, &key(2), u64::MAX, -3).unwrap();
    assert_eq!(event.total_escrowed, 1_000_005);
    assert_eq!(event.amount_burned, 100_000);
    assert_eq!(event.final_pot, 900_005);
    assert_eq!(event.timestamp, -3);
    assert_eq!(odd.player_a_escrowed, 5);
    assert_eq!(odd.player_b_escrowed, STAKE_AMOUNT);
    let mut most = pending;
    most.player_a_escrowed = u64::MAX - STAKE_AMOUNT;
    let event = join_match_with_stake(&mut most, &key(2), STAKE_AMOUNT, 0).unwrap();
    assert_eq!(event.total_escrowed, u64::MAX);
    assert_eq!(event.amount_burned, 1844674407370955161);
    assert_eq!(event.final_pot, u64::MAX - 1844674407370955161);
}

#[test]
fn cancel_waits_for_the_timeout_and_happens_once() {
    let (_, mut stake_state) = staked(77, 1000, 1000);
    let pending = stake_state;
    assert!(!stake_state.can_cancel(1299));
    assert_eq!(
        cancel_match(&mut stake_state, &key(1), 1299).unwrap_err(),
        DroogError::CancelTooEarly
    );
    assert_eq!(stake_state, pending);

    assert!(stake_state.can_cancel(1300));
    let event = cancel_match(&mut stake_state, &key(1), 1300).unwrap();
    assert_eq!(
        event,
        MatchCancelledEvent {
            match_id: 77,
            player_a: key(1),
            amount_refunded: 1_000_000,
            timestamp: 1300,
        }
    );
    assert_eq!(
        stake_state,
        MatchStakeState { status: MatchStatus::Cancelled, player_a_escrowed: 0, ..pending }
    );

    let cancelled = stake_state;
    assert!(!stake_state.can_cancel(1300));
    assert_eq!(
        cancel_match(&mut stake_state, &key(1), 1300).unwrap_err(),
        DroogError::MatchNotPending
    );
    assert_eq!(
        cancel_match(&mut stake_state, &key(1), 5000).unwrap_err(),
        DroogError::MatchNotPending
    );
    assert_eq!(stake_state, cancelled);
    // A cancelled stake cannot be joined either.
    assert_eq!(
        join_match_with_stake(&mut stake_state, &key(2), STAKE_AMOUNT, 5000).unwrap_err(),
        DroogError::MatchNotPending
    );
}

#[test]
fn cancel_is_refused_with_the_first_reason_that_holds() {
    let (_, pending) = staked(77, 0, 0);
    let mut active = pending;
    join_match_with_stake(&mut active, &key(2), STAKE_AMOUNT, 20).unwrap();
    let mut half = pending;
    half.player_b_escrowed = 1;

    let cases: Vec<(MatchStakeState, u8, i64, DroogError)> = vec![
        (pending, 2, 300, DroogError::InvalidPlayer),
        (pending, 3, 0, DroogError::InvalidPlayer),
        (active, 2, 300, DroogError::InvalidPlayer),
        (active, 1, 300, DroogError::MatchNotPending),
        (active, 1, 0, DroogError::MatchNotPending),
        (half, 1, 300, DroogError::PlayerBAlreadyJoined),
        (half, 1, 0, DroogError::PlayerBAlreadyJoined),
        (pending, 1, 0, DroogError::CancelTooEarly),
        (pending, 1, i64::MIN, DroogError::CancelTooEarly),
    ];
    for (s, who, ts, error) in cases {
        let mut after = s;
        assert_eq!(cancel_match(&mut after, &key(who), ts).unwrap_err(), error);
        assert_eq!(after, s);
    }
    let mut late = pending;
    late.created_at = i64::MAX;
    assert!(!late.can_cancel(i64::MAX));
    assert_eq!(cancel_match(&mut late, &key(1), i64::MAX).unwrap_err(), DroogError::CancelTooEarly);
}

#[test]
fn stake_predicates() {
    let (_, pending) = staked(77, 0, 0);
    assert!(pending.can_cancel(300));
    assert!(pending.can_cancel(i64::MAX));
    assert!(!pending.can_cancel(299));
    assert!(!pending.can_activate());
    assert!(!pending.can_finalize());
    let both = MatchStakeState { player_b_escrowed: STAKE_AMOUNT, ..pending };
    assert!(both.can_activate());
    assert!(!both.can_cancel(300));
    let nothing = MatchStakeState { player_a_escrowed: 0, player_b_escrowed: 1, ..pending };
    assert!(!nothing.can_activate());
    for status in [MatchStatus::Active, MatchStatus::Finalized, MatchStatus::Cancelled] {
        let other = MatchStakeState { status, ..both };
        assert!(!other.can_activate());
        assert!(!other.can_cancel(i64::MAX));
        assert_eq!(other.can_finalize(), status == MatchStatus::Active);
    }
}
