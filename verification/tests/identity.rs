use anchor_lang::prelude::Pubkey;
use droog_game::identity::PlayerKey;
use droog_game::mixing::{as_unsigned, le_u64};

fn sample_keys() -> Vec<[u8; 32]> {
    let mut keys = vec![[0u8; 32], [255u8; 32], [1u8; 32], [2u8; 32]];
    let mut state: u64 = 12345;
    for _ in 0..200 {
        let mut bytes = [0u8; 32];
        for b in bytes.iter_mut() {
            state = state.wrapping_mul(6364136223846793005).wrapping_add(1442695040888963407);
            // Few distinct values, so that long common prefixes occur.
            *b = ((state >> 33) % 3) as u8;
        }
        keys.push(bytes);
    }
    for i in 0..32 {
        let mut bytes = [7u8; 32];
        bytes[i] = 8;
        keys.push(bytes);
        bytes[i] = 6;
        keys.push(bytes);
    }
    keys
}

#[test]
fn key_keeps_its_bytes() {
    for bytes in sample_keys() {
        let key = PlayerKey::new(bytes);
        assert_eq!(key.bytes, bytes);
        assert_eq!(key.to_bytes(), bytes);
        assert_eq!(key.to_bytes(), Pubkey::new_from_array(bytes).to_bytes());
    }
}

#[test]
fn key_order_is_that_of_the_signing_keys() {
    let keys = sample_keys();
    for a in keys.iter() {
        for b in keys.iter() {
            let (ka, kb) = (PlayerKey::new(*a), PlayerKey::new(*b));
            let (pa, pb) = (Pubkey::new_from_array(*a), Pubkey::new_from_array(*b));
            assert_eq!(ka.precedes(&kb), pa < pb);
            assert_eq!(ka.same_as(&kb), pa == pb);
            assert_eq!(ka == kb, pa == pb);
        }
    }
}

#[test]
fn key_order_examples() {
    let low = PlayerKey::new([1u8; 32]);
    let high = PlayerKey::new([2u8; 32]);
    assert!(low.precedes(&high));
    assert!(!high.precedes(&low));
    assert!(!low.precedes(&low));
    assert!(low.same_as(&low));
    assert!(!low.same_as(&high));
    let mut first = [0u8; 32];
    first[0] = 1;
    let mut last = [0u8; 32];
    last[31] = 255;
    assert!(PlayerKey::new(last).precedes(&PlayerKey::new(first)));
}

#[test]
fn words_are_little_endian() {
    let mut bytes = [0u8; 32];
    for i in 0..32 {
        bytes[i] = i as u8;
    }
    let key = PlayerKey::new(bytes);
    assert_eq!(key.word(0), 506097522914230528);
    assert_eq!(key.word(8), 1084818905618843912);
    assert_eq!(key.word(0), u64::from_le_bytes([0, 1, 2, 3, 4, 5, 6, 7]));
    assert_eq!(key.word(24), u64::from_le_bytes([24, 25, 26, 27, 28, 29, 30, 31]));
    assert_eq!(le_u64(&bytes, 3), u64::from_le_bytes([3, 4, 5, 6, 7, 8, 9, 10]));
    assert_eq!(key.folded(), key.word(0) ^ key.word(8) ^ key.word(16) ^ key.word(24));
    assert_eq!(key.folded(), 0);
    assert_eq!(PlayerKey::new([255u8; 32]).folded(), 0);
    let mut one = [0u8; 32];
    one[9] = 1;
    assert_eq!(PlayerKey::new(one).folded(), 256);
}

#[test]
fn time_is_read_as_unsigned_by_its_bits() {
    assert_eq!(as_unsigned(0), 0);
    assert_eq!(as_unsigned(1), 1);
    assert_eq!(as_unsigned(i64::MAX), i64::MAX as u64);
    assert_eq!(as_unsigned(-1), u64::MAX);
    assert_eq!(as_unsigned(-5), u64::MAX - 4);
    assert_eq!(as_unsigned(i64::MIN), 1u64 << 63);
}
