use evm_context::encoding::{be_len, be_read, be_write};
use evm_context::hash::{keccak256, rlp_write_nonce};
use evm_context::primitives::{Address, B256, U256};

fn hex(s: &str) -> Vec<u8> {
    let digits: Vec<u8> = s.bytes().map(|c| match c {
        b'0'..=b'9' => c - b'0',
        b'a'..=b'f' => c - b'a' + 10,
        b'A'..=b'F' => c - b'A' + 10,
        _ => panic!("not a hex digit"),
    }).collect();
    digits.chunks(2).map(|p| p[0] * 16 + p[1]).collect()
}

fn address(s: &str) -> Address {
    let bytes: [u8; 20] = hex(s).try_into().unwrap();
    Address::from_be_bytes(&bytes)
}

fn word(s: &str) -> U256 {
    let bytes: [u8; 32] = hex(s).try_into().unwrap();
    U256::from_be_bytes(&bytes)
}

#[test]
fn be_write_pads_and_orders_bytes() {
    let mut out = vec![0xAA];
    be_write(&mut out, 0x0102, 4);
    assert_eq!(out, vec![0xAA, 0x00, 0x00, 0x01, 0x02]);
    let mut none = Vec::new();
    be_write(&mut none, 0xFFFF, 0);
    assert!(none.is_empty());
    let mut low = Vec::new();
    be_write(&mut low, 0x010203, 2);
    assert_eq!(low, vec![0x02, 0x03]);
}

#[test]
fn be_read_reads_a_window() {
    let bytes = [0xFF, 0x01, 0x02, 0x03, 0xFF];
    assert_eq!(be_read(&bytes, 1, 3), 0x010203);
    assert_eq!(be_read(&bytes, 2, 0), 0);
    let full = [0xFFu8; 16];
    assert_eq!(be_read(&full, 0, 16), u128::MAX);
}

#[test]
fn be_len_is_the_shortest_length() {
    assert_eq!(be_len(0), 0);
    assert_eq!(be_len(1), 1);
    assert_eq!(be_len(0xFF), 1);
    assert_eq!(be_len(0x100), 2);
    assert_eq!(be_len(u64::MAX), 8);
}

#[test]
fn u256_bytes_round_trip() {
    let w = word("000102030405060708090a0b0c0d0e0f101112131415161718191a1b1c1d1e1f");
    assert_eq!(w.hi, 0x000102030405060708090a0b0c0d0e0f);
    assert_eq!(w.lo, 0x101112131415161718191a1b1c1d1e1f);
    assert_eq!(
        w.to_be_bytes(),
        hex("000102030405060708090a0b0c0d0e0f101112131415161718191a1b1c1d1e1f")
    );
}

#[test]
fn u256_checked_add_carries_and_overflows() {
    let a = U256::new(0, u128::MAX);
    let one = U256::from_u64(1);
    assert_eq!(a.checked_add(&one), Some(U256::new(1, 0)));
    let max = U256::new(u128::MAX, u128::MAX);
    assert_eq!(max.checked_add(&one), None);
    assert_eq!(max.checked_add(&U256::zero()), Some(max));
    assert_eq!(U256::new(u128::MAX, 0).checked_add(&U256::new(1, 0)), None);
    assert_eq!(U256::new(u128::MAX, 5).checked_add(&U256::new(0, u128::MAX)), None);
}

#[test]
fn u256_checked_sub_borrows_and_underflows() {
    let one = U256::from_u64(1);
    assert_eq!(U256::new(1, 0).checked_sub(&one), Some(U256::new(0, u128::MAX)));
    assert_eq!(U256::zero().checked_sub(&one), None);
    assert_eq!(U256::new(5, 7).checked_sub(&U256::new(5, 7)), Some(U256::zero()));
    assert_eq!(U256::new(5, 7).checked_sub(&U256::new(5, 8)), None);
}

#[test]
fn u256_wrapping_arithmetic_wraps() {
    let max = U256::new(u128::MAX, u128::MAX);
    let one = U256::from_u64(1);
    assert_eq!(max.wrapping_add(&one), U256::zero());
    assert_eq!(U256::zero().wrapping_sub(&one), max);
    assert_eq!(U256::new(0, u128::MAX).wrapping_add(&one), U256::new(1, 0));
    assert_eq!(U256::new(1, 0).wrapping_sub(&one), U256::new(0, u128::MAX));
    let a = U256::new(17, 99);
    let b = U256::new(u128::MAX, 3);
    assert_eq!(a.wrapping_add(&b).wrapping_sub(&b), a);
    assert_eq!(a.wrapping_sub(&b).wrapping_add(&b), a);
}

#[test]
fn u256_lt_compares_high_half_first() {
    assert!(U256::new(0, u128::MAX).lt(&U256::new(1, 0)));
    assert!(!U256::new(1, 0).lt(&U256::new(0, u128::MAX)));
    assert!(U256::new(3, 4).lt(&U256::new(3, 5)));
    assert!(!U256::new(3, 5).lt(&U256::new(3, 5)));
    assert!(U256::zero().is_zero());
    assert!(!U256::new(1, 0).is_zero());
}

#[test]
fn address_bytes_round_trip() {
    let a = address("d8da6bf26964af9d7eed9e03e53415d37aa96045");
    assert_eq!(a.hi, 0xd8da6bf2);
    assert_eq!(a.lo, 0x6964af9d7eed9e03e53415d37aa96045);
    assert_eq!(a.to_be_bytes(), hex("d8da6bf26964af9d7eed9e03e53415d37aa96045"));
}

#[test]
fn address_from_digest_takes_the_last_twenty_bytes() {
    let digest: [u8; 32] = hex(
        "000102030405060708090a0b0c0d0e0f101112131415161718191a1b1c1d1e1f",
    ).try_into().unwrap();
    let a = Address::from_digest(&digest);
    assert_eq!(a.to_be_bytes(), hex("0c0d0e0f101112131415161718191a1b1c1d1e1f"));
}

#[test]
fn keccak256_of_nothing_is_the_empty_hash() {
    assert_eq!(keccak256(&[]), B256::keccak_empty());
    assert_eq!(
        B256::keccak_empty().to_be_bytes(),
        hex("c5d2460186f7233c927e7db2dcc703c0e500b653ca82273b7bfad8045d85a470")
    );
}

#[test]
fn keccak256_of_the_magic_is_the_magic_hash() {
    assert_eq!(keccak256(&[0xEF, 0x00]), B256::eof_magic_hash());
}

#[test]
fn keccak256_agrees_with_the_hash_crate() {
    let inputs: Vec<Vec<u8>> = vec![vec![], vec![0xff], b"abc".to_vec(), vec![7u8; 200]];
    for input in inputs {
        let expected = alloy_primitives::keccak256(&input);
        assert_eq!(keccak256(&input).to_be_bytes(), expected.0.to_vec());
        // The digest is not the input handed back.
        assert_ne!(keccak256(&input).to_be_bytes(), input);
    }
    assert_eq!(
        keccak256(b"abc").to_be_bytes(),
        hex("4e03657aea45a94fc7d47ba826c8d667c0d1e6e33a64a036ec44f58fa12d6c45")
    );
}

#[test]
fn rlp_nonce_encodings() {
    let cases: Vec<(u64, Vec<u8>)> = vec![
        (0, vec![0x80]),
        (1, vec![0x01]),
        (0x7f, vec![0x7f]),
        (0x80, vec![0x81, 0x80]),
        (0xff, vec![0x81, 0xff]),
        (0x100, vec![0x82, 0x01, 0x00]),
        (u64::MAX, vec![0x88, 0xff, 0xff, 0xff, 0xff, 0xff, 0xff, 0xff, 0xff]),
    ];
    for (nonce, expected) in cases {
        let mut out = Vec::new();
        rlp_write_nonce(&mut out, nonce);
        assert_eq!(out, expected);
    }
}

#[test]
fn create_address_known_values() {
    let sender = address("6ac7ea33f8831ea9dcc53393aaa88b25a785dbf0");
    assert_eq!(sender.create(0), address("cd234a471b72ba2f1ccf0a70fcaba648a5eecd8d"));
    assert_eq!(sender.create(1), address("343c43a37d37dff08ae8c4a11544c718abb4fcf8"));
    assert_eq!(sender.create(2), address("f778b86fa74e846c4f0a1fbd1335fe81c00a0c91"));
    assert_eq!(sender.create(3), address("fffd933a0bc612844eaf0c6fe3e5b8e9b6c1d19c"));
}

#[test]
fn create_address_agrees_with_the_address_crate() {
    let senders = ["0000000000000000000000000000000000000000", "6ac7ea33f8831ea9dcc53393aaa88b25a785dbf0", "ffffffffffffffffffffffffffffffffffffffff"];
    let nonces = [0u64, 1, 0x7f, 0x80, 0xff, 0x100, 0xffff, 0x10000, 0xffff_ffff, 1 << 40, u64::MAX - 1, u64::MAX];
    for s in senders {
        let ours = address(s);
        let theirs = alloy_primitives::Address::from_slice(&hex(s));
        for nonce in nonces {
            assert_eq!(ours.create(nonce).to_be_bytes(), theirs.create(nonce).as_slice().to_vec());
        }
    }
}

#[test]
fn create2_address_known_values() {
    let cases = [
        ("0000000000000000000000000000000000000000", "0000000000000000000000000000000000000000000000000000000000000000", "00", "4D1A2e2bB4F88F0250f26Ffff098B0b30B26BF38"),
        ("deadbeef00000000000000000000000000000000", "0000000000000000000000000000000000000000000000000000000000000000", "00", "B928f69Bb1D91Cd65274e3c79d8986362984fDA3"),
        ("deadbeef00000000000000000000000000000000", "000000000000000000000000feed000000000000000000000000000000000000", "00", "D04116cDd17beBE565EB2422F2497E06cC1C9833"),
        ("0000000000000000000000000000000000000000", "0000000000000000000000000000000000000000000000000000000000000000", "deadbeef", "70f2b2914A2a4b783FaEFb75f459A580616Fcb5e"),
        ("00000000000000000000000000000000deadbeef", "00000000000000000000000000000000000000000000000000000000cafebabe", "deadbeef", "60f3f640a8508fC6a86d45DF051962668E1e8AC7"),
        ("0000000000000000000000000000000000000000", "0000000000000000000000000000000000000000000000000000000000000000", "", "E33C0C7F7df4809055C3ebA6c09CFe4BaF1BD9e0"),
    ];
    for (from, salt, init_code, expected) in cases {
        let hash = keccak256(&hex(init_code));
        assert_eq!(address(from).create2(&word(salt), &hash), address(expected));
    }
}

#[test]
fn create2_address_of_zero_caller_zero_salt_and_code_ff() {
    let caller = Address::zero();
    let salt = U256::zero();
    let init_code = [0xffu8];
    let code_hash = alloy_primitives::keccak256(init_code);
    let mut preimage = vec![0xffu8];
    preimage.extend_from_slice(&[0u8; 20]);
    preimage.extend_from_slice(&[0u8; 32]);
    preimage.extend_from_slice(code_hash.as_slice());
    let digest = alloy_primitives::keccak256(&preimage);
    let created = caller.create2(&salt, &keccak256(&init_code));
    assert_eq!(created.to_be_bytes(), digest.as_slice()[12..].to_vec());
}
