//! The byte-level mathematical model of AES-128.
//!
//! Everything here is specification: the S-box, the GF(2^8) multiplications
//! by 2 and 3, the round constants, the FIPS-197 key expansion and the
//! ten-round encryption pipeline, all over sequences of bytes. The state is
//! laid out column-major as in the rest of the crate: byte `4*c + r` of a
//! 16-byte state is row `r` of column (word) `c`.

use vstd::prelude::*;

verus! {

/// The AES S-box in FIPS-197 order.
pub open spec fn sbox_val(x: u8) -> u8 {
    match x {
        0 => 0x63,
        1 => 0x7c,
        2 => 0x77,
        3 => 0x7b,
        4 => 0xf2,
        5 => 0x6b,
        6 => 0x6f,
        7 => 0xc5,
        8 => 0x30,
        9 => 0x01,
        10 => 0x67,
        11 => 0x2b,
        12 => 0xfe,
        13 => 0xd7,
        14 => 0xab,
        15 => 0x76,
        16 => 0xca,
        17 => 0x82,
        18 => 0xc9,
        19 => 0x7d,
        20 => 0xfa,
        21 => 0x59,
        22 => 0x47,
        23 => 0xf0,
        24 => 0xad,
        25 => 0xd4,
        26 => 0xa2,
        27 => 0xaf,
        28 => 0x9c,
        29 => 0xa4,
        30 => 0x72,
        31 => 0xc0,
        32 => 0xb7,
        33 => 0xfd,
        34 => 0x93,
        35 => 0x26,
        36 => 0x36,
        37 => 0x3f,
        38 => 0xf7,
        39 => 0xcc,
        40 => 0x34,
        41 => 0xa5,
        42 => 0xe5,
        43 => 0xf1,
        44 => 0x71,
        45 => 0xd8,
        46 => 0x31,
        47 => 0x15,
        48 => 0x04,
        49 => 0xc7,
        50 => 0x23,
        51 => 0xc3,
        52 => 0x18,
        53 => 0x96,
        54 => 0x05,
        55 => 0x9a,
        56 => 0x07,
        57 => 0x12,
        58 => 0x80,
        59 => 0xe2,
        60 => 0xeb,
        61 => 0x27,
        62 => 0xb2,
        63 => 0x75,
        64 => 0x09,
        65 => 0x83,
        66 => 0x2c,
        67 => 0x1a,
        68 => 0x1b,
        69 => 0x6e,
        70 => 0x5a,
        71 => 0xa0,
        72 => 0x52,
        73 => 0x3b,
        74 => 0xd6,
        75 => 0xb3,
        76 => 0x29,
        77 => 0xe3,
        78 => 0x2f,
        79 => 0x84,
        80 => 0x53,
        81 => 0xd1,
        82 => 0x00,
        83 => 0xed,
        84 => 0x20,
        85 => 0xfc,
        86 => 0xb1,
        87 => 0x5b,
        88 => 0x6a,
        89 => 0xcb,
        90 => 0xbe,
        91 => 0x39,
        92 => 0x4a,
        93 => 0x4c,
        94 => 0x58,
        95 => 0xcf,
        96 => 0xd0,
        97 => 0xef,
        98 => 0xaa,
        99 => 0xfb,
        100 => 0x43,
        101 => 0x4d,
        102 => 0x33,
        103 => 0x85,
        104 => 0x45,
        105 => 0xf9,
        106 => 0x02,
        107 => 0x7f,
        108 => 0x50,
        109 => 0x3c,
        110 => 0x9f,
        111 => 0xa8,
        112 => 0x51,
        113 => 0xa3,
        114 => 0x40,
        115 => 0x8f,
        116 => 0x92,
        117 => 0x9d,
        118 => 0x38,
        119 => 0xf5,
        120 => 0xbc,
        121 => 0xb6,
        122 => 0xda,
        123 => 0x21,
        124 => 0x10,
        125 => 0xff,
        126 => 0xf3,
        127 => 0xd2,
        128 => 0xcd,
        129 => 0x0c,
        130 => 0x13,
        131 => 0xec,
        132 => 0x5f,
        133 => 0x97,
        134 => 0x44,
        135 => 0x17,
        136 => 0xc4,
        137 => 0xa7,
        138 => 0x7e,
        139 => 0x3d,
        140 => 0x64,
        141 => 0x5d,
        142 => 0x19,
        143 => 0x73,
        144 => 0x60,
        145 => 0x81,
        146 => 0x4f,
        147 => 0xdc,
        148 => 0x22,
        149 => 0x2a,
        150 => 0x90,
        151 => 0x88,
        152 => 0x46,
        153 => 0xee,
        154 => 0xb8,
        155 => 0x14,
        156 => 0xde,
        157 => 0x5e,
        158 => 0x0b,
        159 => 0xdb,
        160 => 0xe0,
        161 => 0x32,
        162 => 0x3a,
        163 => 0x0a,
        164 => 0x49,
        165 => 0x06,
        166 => 0x24,
        167 => 0x5c,
        168 => 0xc2,
        169 => 0xd3,
        170 => 0xac,
        171 => 0x62,
        172 => 0x91,
        173 => 0x95,
        174 => 0xe4,
        175 => 0x79,
        176 => 0xe7,
        177 => 0xc8,
        178 => 0x37,
        179 => 0x6d,
        180 => 0x8d,
        181 => 0xd5,
        182 => 0x4e,
        183 => 0xa9,
        184 => 0x6c,
        185 => 0x56,
        186 => 0xf4,
        187 => 0xea,
        188 => 0x65,
        189 => 0x7a,
        190 => 0xae,
        191 => 0x08,
        192 => 0xba,
        193 => 0x78,
        194 => 0x25,
        195 => 0x2e,
        196 => 0x1c,
        197 => 0xa6,
        198 => 0xb4,
        199 => 0xc6,
        200 => 0xe8,
        201 => 0xdd,
        202 => 0x74,
        203 => 0x1f,
        204 => 0x4b,
        205 => 0xbd,
        206 => 0x8b,
        207 => 0x8a,
        208 => 0x70,
        209 => 0x3e,
        210 => 0xb5,
        211 => 0x66,
        212 => 0x48,
        213 => 0x03,
        214 => 0xf6,
        215 => 0x0e,
        216 => 0x61,
        217 => 0x35,
        218 => 0x57,
        219 => 0xb9,
        220 => 0x86,
        221 => 0xc1,
        222 => 0x1d,
        223 => 0x9e,
        224 => 0xe1,
        225 => 0xf8,
        226 => 0x98,
        227 => 0x11,
        228 => 0x69,
        229 => 0xd9,
        230 => 0x8e,
        231 => 0x94,
        232 => 0x9b,
        233 => 0x1e,
        234 => 0x87,
        235 => 0xe9,
        236 => 0xce,
        237 => 0x55,
        238 => 0x28,
        239 => 0xdf,
        240 => 0x8c,
        241 => 0xa1,
        242 => 0x89,
        243 => 0x0d,
        244 => 0xbf,
        245 => 0xe6,
        246 => 0x42,
        247 => 0x68,
        248 => 0x41,
        249 => 0x99,
        250 => 0x2d,
        251 => 0x0f,
        252 => 0xb0,
        253 => 0x54,
        254 => 0xbb,
        _ => 0x16,
    }
}

/// Multiplication by 2 in GF(2^8) modulo the AES polynomial 0x11B.
pub open spec fn xtime(x: u8) -> u8 {
    (x << 1) ^ (if x & 0x80 != 0 { 0x1b } else { 0 })
}

/// Multiplication by 3 in GF(2^8): 3·x = 2·x ⊕ x.
pub open spec fn gmul3(x: u8) -> u8 {
    xtime(x) ^ x
}

/// The AES key-schedule round constants, position `r` feeding output round `r + 1`.
pub open spec fn rcon_val(r: int) -> u8 {
    if r == 0 {
        1
    } else if r == 1 {
        2
    } else if r == 2 {
        4
    } else if r == 3 {
        8
    } else if r == 4 {
        16
    } else if r == 5 {
        32
    } else if r == 6 {
        64
    } else if r == 7 {
        128
    } else if r == 8 {
        27
    } else {
        54
    }
}

/// Byte-wise XOR of two equal-length byte sequences.
pub open spec fn xor_seq(a: Seq<u8>, b: Seq<u8>) -> Seq<u8> {
    Seq::new(a.len(), |i: int| a[i] ^ b[i])
}

/// Byte-wise S-box substitution.
pub open spec fn sub_bytes(s: Seq<u8>) -> Seq<u8> {
    Seq::new(s.len(), |i: int| sbox_val(s[i]))
}

/// One-byte left rotation of a four-byte word.
pub open spec fn rot_word(w: Seq<u8>) -> Seq<u8> {
    seq![w[1], w[2], w[3], w[0]]
}

/// The round-constant word `[rc(r), 0, 0, 0]`.
pub open spec fn rcon_word(r: int) -> Seq<u8> {
    seq![rcon_val(r), 0, 0, 0]
}

/// Word `i` (four bytes) of the FIPS-197 expansion of a 16-byte key.
pub open spec fn key_word(key: Seq<u8>, i: int) -> Seq<u8>
    decreases i,
{
    if i < 4 {
        key.subrange(4 * i, 4 * i + 4)
    } else if i % 4 == 0 {
        xor_seq(
            key_word(key, i - 4),
            xor_seq(sub_bytes(rot_word(key_word(key, i - 1))), rcon_word(i / 4 - 1)),
        )
    } else {
        xor_seq(key_word(key, i - 4), key_word(key, i - 1))
    }
}

/// The full 176-byte expanded key: words 0..44 laid out flat.
pub open spec fn expanded_key(key: Seq<u8>) -> Seq<u8> {
    Seq::new(176, |i: int| key_word(key, i / 4)[i % 4])
}

/// Round key `r` (16 bytes) of the expanded key `ks`.
pub open spec fn round_key(ks: Seq<u8>, r: int) -> Seq<u8> {
    ks.subrange(16 * r, 16 * r + 16)
}

/// The 16 bytes of round key `r` of the expansion of `key`: words
/// `4r .. 4r+4` laid out flat.
pub open spec fn key_round_bytes(key: Seq<u8>, r: int) -> Seq<u8> {
    Seq::new(16, |n: int| key_word(key, 4 * r + n / 4)[n % 4])
}

/// Word `w` of one key-schedule round, written over the 16 bytes of the
/// previous round alone: word 0 folds in the rotated, substituted last word
/// and the round constant; words 1..4 each XOR the previous round's word
/// with the word just produced.
pub open spec fn next_round_word(prev: Seq<u8>, r: int, w: int) -> Seq<u8>
    decreases w,
{
    if w <= 0 {
        xor_seq(
            prev.subrange(0, 4),
            xor_seq(sub_bytes(rot_word(prev.subrange(12, 16))), rcon_word(r - 1)),
        )
    } else {
        xor_seq(prev.subrange(4 * w, 4 * w + 4), next_round_word(prev, r, w - 1))
    }
}

/// The 16 bytes of one key-schedule round, from the previous round's bytes.
pub open spec fn next_round_bytes(prev: Seq<u8>, r: int) -> Seq<u8> {
    Seq::new(16, |n: int| next_round_word(prev, r, n / 4)[n % 4])
}

/// Every word of the expansion has four bytes.
pub proof fn lemma_key_word_len(key: Seq<u8>, i: int)
    requires
        key.len() == 16,
        0 <= i,
    ensures
        key_word(key, i).len() == 4,
    decreases i,
{
    if i >= 4 {
        lemma_key_word_len(key, i - 4);
        lemma_key_word_len(key, i - 1);
    }
}

/// The per-round step agrees with the global expansion: word `w` computed
/// from the bytes of round `r - 1` is word `4r + w` of the expansion.
pub proof fn lemma_next_round_word(key: Seq<u8>, r: int, w: int)
    requires
        key.len() == 16,
        1 <= r,
        0 <= w < 4,
    ensures
        next_round_word(key_round_bytes(key, r - 1), r, w) == key_word(key, 4 * r + w),
    decreases w,
{
    let prev = key_round_bytes(key, r - 1);
    lemma_key_word_len(key, 4 * r - 4 + w);
    lemma_key_word_len(key, 4 * r + w - 1);
    lemma_key_word_len(key, 4 * r - 1);
    if w == 0 {
        assert(prev.subrange(0, 4) =~= key_word(key, 4 * r - 4));
        assert(prev.subrange(12, 16) =~= key_word(key, 4 * r - 1));
        assert((4 * r) % 4 == 0 && (4 * r) / 4 == r) by (nonlinear_arith);
        assert(next_round_word(prev, r, 0) =~= key_word(key, 4 * r));
    } else {
        lemma_next_round_word(key, r, w - 1);
        lemma_key_word_len(key, 4 * r + w - 4);
        assert(prev.subrange(4 * w, 4 * w + 4) =~= key_word(key, 4 * r + w - 4));
        assert((4 * r + w) % 4 == w % 4 && w % 4 != 0) by (nonlinear_arith)
            requires
                1 <= w < 4 && 1 <= r,
        ;
        assert(next_round_word(prev, r, w) =~= key_word(key, 4 * r + w));
    }
}

/// The 16 bytes of round `r` are the per-round step applied to round `r - 1`.
pub proof fn lemma_next_round_bytes(key: Seq<u8>, r: int)
    requires
        key.len() == 16,
        1 <= r,
    ensures
        next_round_bytes(key_round_bytes(key, r - 1), r) == key_round_bytes(key, r),
{
    let prev = key_round_bytes(key, r - 1);
    assert forall|n: int| 0 <= n < 16 implies next_round_bytes(prev, r)[n] == key_round_bytes(
        key,
        r,
    )[n] by {
        lemma_next_round_word(key, r, n / 4);
    }
    assert(next_round_bytes(prev, r) =~= key_round_bytes(key, r));
}

/// Round key `r` of the flat expanded key is the 16-byte round `r` of the
/// word-wise expansion.
pub proof fn lemma_round_key_bytes(key: Seq<u8>, r: int)
    requires
        key.len() == 16,
        0 <= r < 11,
    ensures
        round_key(expanded_key(key), r) == key_round_bytes(key, r),
{
    assert forall|n: int| 0 <= n < 16 implies round_key(expanded_key(key), r)[n]
        == key_round_bytes(key, r)[n] by {
        let i = 16 * r + n;
        assert(round_key(expanded_key(key), r)[n] == expanded_key(key)[i]);
        assert(i / 4 == 4 * r + n / 4 && i % 4 == n % 4) by (nonlinear_arith)
            requires
                i == 16 * r + n && 0 <= n < 16,
        ;
    }
    assert(round_key(expanded_key(key), r) =~= key_round_bytes(key, r));
}

/// The first round of the expansion is the key itself.
pub proof fn lemma_key_round_zero(key: Seq<u8>)
    requires
        key.len() == 16,
    ensures
        key_round_bytes(key, 0) == key,
{
    assert forall|n: int| 0 <= n < 16 implies key_round_bytes(key, 0)[n] == key[n] by {
        assert(key_word(key, n / 4) == key.subrange(4 * (n / 4), 4 * (n / 4) + 4));
        assert(4 * (n / 4) + n % 4 == n) by (nonlinear_arith)
            requires
                0 <= n < 16,
        ;
    }
    assert(key_round_bytes(key, 0) =~= key);
}

/// The ShiftRows permutation on the column-major state:
/// byte `(r, c)` of the result is byte `(r, (c + r) mod 4)` of the input.
pub open spec fn shift_rows(s: Seq<u8>) -> Seq<u8> {
    Seq::new(16, |n: int| s[4 * (((n / 4) + (n % 4)) % 4) + (n % 4)])
}

/// The MixColumns coefficient at row `m`, column `j` of the fixed matrix.
pub open spec fn mix_coeff(m: int, j: int) -> u8 {
    if m == 0 {
        if j == 0 { 2 } else if j == 1 { 3 } else { 1 }
    } else if m == 1 {
        if j == 1 { 2 } else if j == 2 { 3 } else { 1 }
    } else if m == 2 {
        if j == 2 { 2 } else if j == 3 { 3 } else { 1 }
    } else {
        if j == 3 { 2 } else if j == 0 { 3 } else { 1 }
    }
}

/// Multiplication of a state byte by a MixColumns coefficient (1, 2 or 3).
pub open spec fn gf_mul_coeff(c: u8, b: u8) -> u8 {
    if c == 1 {
        b
    } else if c == 2 {
        xtime(b)
    } else {
        gmul3(b)
    }
}

/// One output byte of MixColumns: row `m` of the matrix times word `w`.
pub open spec fn mix_word_byte(w: Seq<u8>, m: int) -> u8 {
    gf_mul_coeff(mix_coeff(m, 0), w[0]) ^ gf_mul_coeff(mix_coeff(m, 1), w[1]) ^ gf_mul_coeff(
        mix_coeff(m, 2),
        w[2],
    ) ^ gf_mul_coeff(mix_coeff(m, 3), w[3])
}

/// MixColumns applied to the whole 16-byte state, word by word.
pub open spec fn mix_columns(s: Seq<u8>) -> Seq<u8> {
    Seq::new(16, |n: int| mix_word_byte(s.subrange(4 * (n / 4), 4 * (n / 4) + 4), n % 4))
}

/// One AES round on the state: SubBytes, ShiftRows, MixColumns (omitted in
/// the last round) and AddRoundKey with the given 16-byte round key.
pub open spec fn aes_round(s: Seq<u8>, rk: Seq<u8>, last: bool) -> Seq<u8> {
    if last {
        xor_seq(shift_rows(sub_bytes(s)), rk)
    } else {
        xor_seq(mix_columns(shift_rows(sub_bytes(s))), rk)
    }
}

/// The state after round `r` of the pipeline driven by the expanded key
/// `ks`: round 0 is the initial AddRoundKey, rounds 1..=10 are AES rounds,
/// and round 10 omits MixColumns.
pub open spec fn enc_after(pt: Seq<u8>, ks: Seq<u8>, r: int) -> Seq<u8>
    decreases r,
{
    if r <= 0 {
        xor_seq(pt, round_key(ks, 0))
    } else {
        aes_round(enc_after(pt, ks, r - 1), round_key(ks, r), r == 10)
    }
}

/// AES-128 encryption of a 16-byte block under a 16-byte key.
pub open spec fn aes128_encrypt(key: Seq<u8>, pt: Seq<u8>) -> Seq<u8> {
    enc_after(pt, expanded_key(key), 10)
}

/// The state after round `r` of the pipeline, driven by a sequence of eleven
/// 16-byte round keys instead of the flat expanded key.
pub open spec fn enc_after_rk(pt: Seq<u8>, rks: Seq<Seq<u8>>, r: int) -> Seq<u8>
    decreases r,
{
    if r <= 0 {
        xor_seq(pt, rks[0])
    } else {
        aes_round(enc_after_rk(pt, rks, r - 1), rks[r], r == 10)
    }
}

/// The full ten-round pipeline over a sequence of round keys.
pub open spec fn aes128_with_keys(pt: Seq<u8>, rks: Seq<Seq<u8>>) -> Seq<u8> {
    enc_after_rk(pt, rks, 10)
}

/// The last round omits MixColumns: the ciphertext is round key 10 added to
/// the shifted, substituted round-9 state, with no MixColumns in between.
pub proof fn lemma_last_round_omits_mix_columns(pt: Seq<u8>, rks: Seq<Seq<u8>>)
    ensures
        aes128_with_keys(pt, rks) == xor_seq(
            shift_rows(sub_bytes(enc_after_rk(pt, rks, 9))),
            rks[10],
        ),
{
}

/// Driving the pipeline with the round keys of an expanded key gives the
/// same states as driving it with the flat expanded key.
pub proof fn lemma_enc_with_round_keys(pt: Seq<u8>, ks: Seq<u8>, rks: Seq<Seq<u8>>, r: int)
    requires
        0 <= r <= 10,
        rks.len() == 11,
        forall|i: int| 0 <= i < 11 ==> rks[i] == round_key(ks, i),
    ensures
        enc_after_rk(pt, rks, r) == enc_after(pt, ks, r),
    decreases r,
{
    if r > 0 {
        lemma_enc_with_round_keys(pt, ks, rks, r - 1);
    }
}

/// Encrypting under the round keys of the FIPS-197 expansion of `key` is
/// AES-128 encryption under `key`.
pub proof fn lemma_aes128_with_keys(key: Seq<u8>, pt: Seq<u8>, rks: Seq<Seq<u8>>)
    requires
        key.len() == 16,
        rks.len() == 11,
        forall|i: int| 0 <= i < 11 ==> rks[i] == round_key(expanded_key(key), i),
    ensures
        aes128_with_keys(pt, rks) == aes128_encrypt(key, pt),
{
    lemma_enc_with_round_keys(pt, expanded_key(key), rks, 10);
}

} // verus!
