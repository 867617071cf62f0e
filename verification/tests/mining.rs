use blockchain::block::{proof_of_work, Block, MiningError, MAX_DATA_LEN, MAX_PROOF};
use blockchain::target::meets_target;

const ZERO: [u8; 32] = [0u8; 32];

const GENESIS_HASH_D2: [u8; 32] = [
    0x00, 0xce, 0x22, 0x42, 0x48, 0xcc, 0xe3, 0x21, 0x73, 0x5f, 0xbe, 0xb6, 0x41, 0x15, 0x3d, 0x11,
    0xc2, 0x96, 0x1a, 0xae, 0x44, 0xe3, 0x9a, 0xa4, 0xf8, 0xb6, 0xe1, 0xee, 0x99, 0x3a, 0x9d, 0x89,
];

const HELLO_HASH_D2: [u8; 32] = [
    0x00, 0x55, 0x56, 0xf3, 0x88, 0xb3, 0xcc, 0xf2, 0x32, 0x6b, 0x90, 0xcb, 0x85, 0x8e, 0x8e, 0x05,
    0xd0, 0x9e, 0xd2, 0x9e, 0x9c, 0x84, 0x2d, 0x27, 0x9f, 0x96, 0xd7, 0x4e, 0x27, 0xd0, 0xa0, 0xf6,
];

#[test]
fn search_returns_the_first_accepted_nonce() {
    let (hash, nonce) =
        proof_of_work(1_700_000_000, &ZERO, b"Genesis block", 2, 1_000_000).unwrap();
    assert_eq!(nonce, 748);
    assert_eq!(hash, GENESIS_HASH_D2);
}

#[test]
fn search_stops_short_of_the_ceiling() {
    // the first accepted nonce is 748: a ceiling of 748 does not reach it
    assert_eq!(
        proof_of_work(1_700_000_000, &ZERO, b"Genesis block", 2, 748),
        Err(MiningError::IterationLimitExceeded)
    );
    let (_, nonce) = proof_of_work(1_700_000_000, &ZERO, b"Genesis block", 2, 749).unwrap();
    assert_eq!(nonce, 748);
}

#[test]
fn search_with_ceiling_zero_fails() {
    assert_eq!(
        proof_of_work(1_700_000_000, &ZERO, b"Genesis block", 1, 0),
        Err(MiningError::IterationLimitExceeded)
    );
    assert_eq!(
        proof_of_work(0, &ZERO, b"x", 0, 0),
        Err(MiningError::IterationLimitExceeded)
    );
}

#[test]
fn search_at_difficulty_zero_takes_nonce_zero() {
    let (hash, nonce) = proof_of_work(0, &ZERO, b"x", 0, 10).unwrap();
    assert_eq!(nonce, 0);
    assert_eq!(hash[0], 0xc8);
}

#[test]
fn search_at_the_largest_difficulty_finds_nothing() {
    assert_eq!(
        proof_of_work(0, &ZERO, b"x", 64, 2_000),
        Err(MiningError::IterationLimitExceeded)
    );
    assert_eq!(
        proof_of_work(0, &ZERO, b"x", 1_000, 2_000),
        Err(MiningError::IterationLimitExceeded)
    );
}

#[test]
fn mined_block_carries_its_inputs() {
    let block = Block::mine(1_700_000_001, &GENESIS_HASH_D2, b"hello", 2, 1_000_000).unwrap();
    assert_eq!(block.timestamp(), 1_700_000_001);
    assert_eq!(block.prev_hash(), GENESIS_HASH_D2);
    assert_eq!(block.data(), b"hello");
    assert_eq!(block.nonce(), 199);
    assert_eq!(block.hash(), HELLO_HASH_D2);
}

#[test]
fn mined_block_hash_is_the_digest_of_its_fields() {
    for difficulty in 0..4 {
        let block = Block::mine(42, &GENESIS_HASH_D2, b"payload", difficulty, 1_000_000).unwrap();
        assert_eq!(block.calculate_hash(block.nonce()), block.hash());
        assert!(block.is_valid(difficulty));
    }
}

#[test]
fn mined_block_hash_is_below_the_target() {
    let block = Block::mine(7, &ZERO, b"below", 3, 1_000_000).unwrap();
    let hash = block.hash();
    assert_eq!(hash[0], 0);
    assert_eq!(hash[1] >> 4, 0);
    assert!(meets_target(&hash, 3));
    // no smaller nonce is accepted
    for nonce in 0..block.nonce() {
        assert!(!meets_target(&block.calculate_hash(nonce), 3));
    }
}

#[test]
fn mining_is_deterministic() {
    let first = Block::mine(1_700_000_000, &ZERO, b"same inputs", 2, 1_000_000).unwrap();
    let second = Block::mine(1_700_000_000, &ZERO, b"same inputs", 2, 1_000_000).unwrap();
    assert_eq!(first.nonce(), second.nonce());
    assert_eq!(first.hash(), second.hash());
    assert_eq!(first.timestamp(), second.timestamp());
    assert_eq!(first.prev_hash(), second.prev_hash());
    assert_eq!(first.data(), second.data());
}

#[test]
fn larger_ceiling_finds_the_same_block() {
    let small = Block::mine(1_700_000_000, &ZERO, b"Genesis block", 2, 749).unwrap();
    let large = Block::mine(1_700_000_000, &ZERO, b"Genesis block", 2, MAX_PROOF).unwrap();
    assert_eq!(small.nonce(), large.nonce());
    assert_eq!(small.hash(), large.hash());
}

#[test]
fn mining_fails_without_a_block() {
    let failed = Block::mine(1_700_000_000, &ZERO, b"Genesis block", 2, 748);
    assert_eq!(failed.unwrap_err(), MiningError::IterationLimitExceeded);
}

#[test]
fn genesis_has_no_parent_and_the_marker_payload() {
    let genesis = Block::mine_genesis(1_700_000_000, 2, 1_000_000).unwrap();
    assert_eq!(genesis.prev_hash(), ZERO);
    assert_eq!(genesis.data(), b"Genesis block");
    assert_eq!(genesis.timestamp(), 1_700_000_000);
    assert_eq!(genesis.nonce(), 748);
    assert_eq!(genesis.hash(), GENESIS_HASH_D2);
    assert!(genesis.is_valid(2));
}

#[test]
fn genesis_at_difficulty_one_has_a_zero_leading_digit() {
    let genesis = Block::mine_genesis(5, 1, 1_000_000).unwrap();
    assert_eq!(genesis.nonce(), 5);
    assert_eq!(genesis.hash()[0], 0x0c);
    assert_eq!(genesis.hash()[0] >> 4, 0);
}

#[test]
fn genesis_fails_under_a_low_ceiling() {
    assert_eq!(
        Block::mine_genesis(1_700_000_000, 2, 10).unwrap_err(),
        MiningError::IterationLimitExceeded
    );
}

#[test]
fn block_with_empty_payload_is_mined() {
    let block = Block::mine(1_700_000_002, &HELLO_HASH_D2, &[], 2, 1_000_000).unwrap();
    assert_eq!(block.nonce(), 264);
    assert_eq!(block.data().len(), 0);
    assert_eq!(block.hash()[0], 0x00);
    assert_eq!(block.hash()[1], 0x8f);
}

#[test]
fn block_serializes_with_the_given_nonce() {
    let block = Block::from_parts(1, ZERO, ZERO, 9, b"abc".to_vec());
    let bytes = block.serialize(2);
    assert_eq!(bytes.len(), 51);
    assert_eq!(&bytes[0..8], &[1, 0, 0, 0, 0, 0, 0, 0]);
    assert_eq!(&bytes[8..40], &ZERO);
    assert_eq!(&bytes[40..48], &[2, 0, 0, 0, 0, 0, 0, 0]);
    assert_eq!(&bytes[48..], b"abc");
    assert_eq!(block.calculate_hash(2)[0], 0x99);
}

#[test]
fn block_from_parts_keeps_the_fields_unchecked() {
    let block = Block::from_parts(-3, GENESIS_HASH_D2, HELLO_HASH_D2, 77, vec![1, 2, 3]);
    assert_eq!(block.timestamp(), -3);
    assert_eq!(block.prev_hash(), GENESIS_HASH_D2);
    assert_eq!(block.hash(), HELLO_HASH_D2);
    assert_eq!(block.nonce(), 77);
    assert_eq!(block.data(), &[1, 2, 3]);
    assert!(!block.is_valid(2));
}

#[test]
fn block_validity_depends_on_every_field() {
    let good = Block::mine(1_700_000_001, &GENESIS_HASH_D2, b"hello", 2, 1_000_000).unwrap();
    assert!(good.is_valid(2));
    assert!(good.is_valid(1));
    assert!(good.is_valid(0));
    assert!(!good.is_valid(3));
    let rebuilt = |timestamp: i64, prev: [u8; 32], hash: [u8; 32], nonce: u64, data: &[u8]| {
        Block::from_parts(timestamp, prev, hash, nonce, data.to_vec())
    };
    assert!(rebuilt(1_700_000_001, GENESIS_HASH_D2, HELLO_HASH_D2, 199, b"hello").is_valid(2));
    assert!(!rebuilt(1_700_000_002, GENESIS_HASH_D2, HELLO_HASH_D2, 199, b"hello").is_valid(2));
    assert!(!rebuilt(1_700_000_001, ZERO, HELLO_HASH_D2, 199, b"hello").is_valid(2));
    assert!(!rebuilt(1_700_000_001, GENESIS_HASH_D2, GENESIS_HASH_D2, 199, b"hello").is_valid(2));
    assert!(!rebuilt(1_700_000_001, GENESIS_HASH_D2, HELLO_HASH_D2, 198, b"hello").is_valid(2));
    assert!(!rebuilt(1_700_000_001, GENESIS_HASH_D2, HELLO_HASH_D2, 199, b"hellp").is_valid(2));
}

#[test]
fn block_clone_is_the_same_block() {
    let block = Block::mine(1_700_000_001, &GENESIS_HASH_D2, b"hello", 2, 1_000_000).unwrap();
    let copy = block.clone();
    assert_eq!(copy.timestamp(), block.timestamp());
    assert_eq!(copy.prev_hash(), block.prev_hash());
    assert_eq!(copy.hash(), block.hash());
    assert_eq!(copy.nonce(), block.nonce());
    assert_eq!(copy.data(), block.data());
}

#[test]
fn limits_have_their_reference_values() {
    assert_eq!(MAX_PROOF, 100_000_000);
    assert_eq!(MAX_DATA_LEN, (1u64 << 61) - 1 - 48);
}
