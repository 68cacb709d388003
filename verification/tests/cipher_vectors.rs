//! Byte-level vectors: the S-box, the GF(2^8) multiplications, the round
//! constants, the FIPS-197 key expansion and full block encryption.

use halo2_aes::cipher::{
    encrypt_block, expand_key, mix_columns_block, round_key_block, shift_rows_block,
    sub_bytes_block, xor_block,
};
use halo2_aes::utils::{get_round_constant, mul_by_2, mul_by_3, sub_byte, xor_bytes};

fn hex_to_bytes(s: &str) -> Vec<u8> {
    let chars: Vec<char> = s.chars().collect();
    let mut out = Vec::new();
    let mut i = 0;
    while i < chars.len() {
        let hi = chars[i].to_digit(16).unwrap() as u8;
        let lo = chars[i + 1].to_digit(16).unwrap() as u8;
        out.push(hi * 16 + lo);
        i += 2;
    }
    out
}

fn to_array(v: &[u8]) -> [u8; 16] {
    let mut a = [0u8; 16];
    a.copy_from_slice(v);
    a
}

#[test]
fn test_xor_bytes() {
    assert_eq!(xor_bytes(5, 12), 9);
}

#[test]
fn test_sbox_values() {
    assert_eq!(sub_byte(0x00), 0x63);
    assert_eq!(sub_byte(0x01), 0x7C);
    assert_eq!(sub_byte(0x53), 0xED);
    assert_eq!(sub_byte(0xFF), 0x16);
}

#[test]
fn test_gf_multiplications() {
    assert_eq!(mul_by_2(0x01), 0x02);
    assert_eq!(mul_by_2(0x80), 0x1B);
    assert_eq!(mul_by_2(0xFF), 0xE5);
    assert_eq!(mul_by_3(0x01), 0x03);
    assert_eq!(mul_by_3(0xFF), 0x1A);
    for x in 0..=255u8 {
        assert_eq!(mul_by_3(x), mul_by_2(x) ^ x);
    }
}

#[test]
fn test_round_constants() {
    let expected: [u8; 10] = [1, 2, 4, 8, 16, 32, 64, 128, 27, 54];
    for (i, &rc) in expected.iter().enumerate() {
        assert_eq!(get_round_constant(i as u32), rc);
    }
    // The final round constant is 54, not the out-of-field 108.
    assert_eq!(get_round_constant(9), 54);
    assert_ne!(get_round_constant(9), 108);
}

#[test]
fn test_zero_key_zero_block() {
    let key = [0u8; 16];
    let plaintext = [0u8; 16];
    let ciphertext = encrypt_block(&key, &plaintext);
    assert_eq!(ciphertext, hex_to_bytes("66E94BD4EF8A2C3B884CFA59CA342B2E"));
}

#[test]
fn test_fips_example_vector() {
    let key = to_array(&hex_to_bytes("000102030405060708090A0B0C0D0E0F"));
    let plaintext = to_array(&hex_to_bytes("00112233445566778899AABBCCDDEEFF"));
    let ciphertext = encrypt_block(&key, &plaintext);
    assert_eq!(ciphertext, hex_to_bytes("69C4E0D86A7B0430D8CDB78070B4C55A"));
}

#[test]
fn test_nist_ecb_vector() {
    let key = to_array(&hex_to_bytes("2B7E151628AED2A6ABF7158809CF4F3C"));
    let plaintext = to_array(&hex_to_bytes("6BC1BEE22E409F96E93D7E117393172A"));
    let ciphertext = encrypt_block(&key, &plaintext);
    assert_eq!(ciphertext, hex_to_bytes("3AD77BB40D7A3660A89ECAF32466EF97"));
}

const EXPANDED: [&str; 44] = [
    "00000000", "00000000", "00000000", "00000000", "62636363", "62636363", "62636363", "62636363",
    "9b9898c9", "f9fbfbaa", "9b9898c9", "f9fbfbaa", "90973450", "696ccffa", "f2f45733", "0b0fac99",
    "ee06da7b", "876a1581", "759e42b2", "7e91ee2b", "7f2e2b88", "f8443e09", "8dda7cbb", "f34b9290",
    "ec614b85", "1425758c", "99ff0937", "6ab49ba7", "21751787", "3550620b", "acaf6b3c", "c61bf09b",
    "0ef90333", "3ba96138", "97060a04", "511dfa9f", "b1d4d8e2", "8a7db9da", "1d7bb3de", "4c664941",
    "b4ef5bcb", "3e92e211", "23e951cf", "6f8f188e",
];

#[test]
fn test_zero_key_expansion() {
    let ks = expand_key(&[0u8; 16]);
    assert_eq!(ks.len(), 176);
    for (w, hex) in EXPANDED.iter().enumerate() {
        let expected = hex_to_bytes(hex);
        assert_eq!(&ks[4 * w..4 * w + 4], &expected[..], "word {}", w);
    }
}

#[test]
fn test_boundary_key_expansion() {
    // The zero key and the all-ones key expand without failure.
    let zero = expand_key(&[0u8; 16]);
    assert_eq!(zero.len(), 176);
    let ones = expand_key(&[0xFFu8; 16]);
    assert_eq!(ones.len(), 176);
    // Known words 4..8 of the all-ones expansion.
    assert_eq!(&ones[16..20], &hex_to_bytes("e8e9e9e9")[..]);
    assert_eq!(&ones[20..24], &hex_to_bytes("17161616")[..]);
    assert_eq!(&ones[24..28], &hex_to_bytes("e8e9e9e9")[..]);
    assert_eq!(&ones[28..32], &hex_to_bytes("17161616")[..]);
}

#[test]
fn test_last_round_skips_mix_columns() {
    // Running the pipeline with MixColumns wrongly applied in round 10 must
    // not reproduce the reference ciphertext.
    let key = [0u8; 16];
    let plaintext = [0u8; 16];
    let ks = expand_key(&key);

    let mut state = xor_block(&plaintext.to_vec(), &round_key_block(&ks, 0));
    for round in 1..=10usize {
        let subbed = sub_bytes_block(&state);
        let shifted = shift_rows_block(&subbed);
        // MixColumns applied in every round, including the last.
        let mixed = mix_columns_block(&shifted);
        state = xor_block(&mixed, &round_key_block(&ks, round));
    }
    let wrong = state;
    let right = encrypt_block(&key, &plaintext);
    assert_eq!(right, hex_to_bytes("66E94BD4EF8A2C3B884CFA59CA342B2E"));
    assert_ne!(wrong, right);
}
