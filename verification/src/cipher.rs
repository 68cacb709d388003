//! The byte-level AES-128 cipher as plain executable code, proved against
//! the model in [`crate::model`]. These functions compute the same values
//! the circuit assigns, with no proof system involved: the key expansion,
//! the four round transformations and full block encryption.

use vstd::prelude::*;

use crate::model::{aes128_encrypt, aes_round, enc_after, expanded_key, gf_mul_coeff,
    key_round_bytes, lemma_key_round_zero, lemma_next_round_bytes, lemma_round_key_bytes,
    mix_coeff, mix_columns, mix_word_byte, next_round_bytes, next_round_word, rot_word,
    round_key, sbox_val, shift_rows, sub_bytes, xor_seq};
use crate::utils::{get_round_constant, mul_by_2, mul_by_3, sub_byte, xor_bytes};

verus! {

/// Multiply a byte by a MixColumns coefficient: 1 copies, 2 and 3 multiply
/// in GF(2^8).
pub fn gf_mul_coeff_byte(c: u8, b: u8) -> (r: u8)
    ensures
        r == gf_mul_coeff(c, b),
{
    if c == 1 {
        b
    } else if c == 2 {
        mul_by_2(b)
    } else {
        mul_by_3(b)
    }
}

/// Byte-wise XOR of two equal-length byte vectors.
pub fn xor_block(a: &Vec<u8>, b: &Vec<u8>) -> (r: Vec<u8>)
    requires
        a@.len() == b@.len(),
    ensures
        r@ == xor_seq(a@, b@),
{
    let mut out: Vec<u8> = Vec::new();
    let mut i: usize = 0;
    while i < a.len()
        invariant
            i <= a@.len(),
            a@.len() == b@.len(),
            out@.len() == i,
            forall|j: int| 0 <= j < i ==> out@[j] == (a@[j] ^ b@[j]),
        decreases a@.len() - i,
    {
        out.push(xor_bytes(a[i], b[i]));
        i = i + 1;
    }
    proof {
        assert(out@ =~= xor_seq(a@, b@));
    }
    out
}

/// SubBytes: the S-box applied to every byte of the state.
pub fn sub_bytes_block(s: &Vec<u8>) -> (r: Vec<u8>)
    ensures
        r@ == sub_bytes(s@),
{
    let mut out: Vec<u8> = Vec::new();
    let mut i: usize = 0;
    while i < s.len()
        invariant
            i <= s@.len(),
            out@.len() == i,
            forall|j: int| 0 <= j < i ==> out@[j] == sbox_val(s@[j]),
        decreases s@.len() - i,
    {
        out.push(sub_byte(s[i]));
        i = i + 1;
    }
    proof {
        assert(out@ =~= sub_bytes(s@));
    }
    out
}

/// ShiftRows: the column-major row rotation of the 16-byte state.
pub fn shift_rows_block(s: &Vec<u8>) -> (r: Vec<u8>)
    requires
        s@.len() == 16,
    ensures
        r@ == shift_rows(s@),
{
    let mut out: Vec<u8> = Vec::new();
    let mut n: usize = 0;
    while n < 16
        invariant
            n <= 16,
            s@.len() == 16,
            out@.len() == n,
            forall|m: int| 0 <= m < n ==> out@[m] == s@[4 * (((m / 4) + (m % 4)) % 4) + (m % 4)],
        decreases 16 - n,
    {
        let src = 4 * ((n / 4 + n % 4) % 4) + n % 4;
        out.push(s[src]);
        n = n + 1;
    }
    proof {
        assert(out@ =~= shift_rows(s@));
    }
    out
}

/// MixColumns: every four-byte word of the state multiplied by the fixed
/// coefficient matrix.
pub fn mix_columns_block(s: &Vec<u8>) -> (r: Vec<u8>)
    requires
        s@.len() == 16,
    ensures
        r@ == mix_columns(s@),
{
    let mut out: Vec<u8> = Vec::new();
    let mut n: usize = 0;
    while n < 16
        invariant
            n <= 16,
            s@.len() == 16,
            out@.len() == n,
            forall|j: int| 0 <= j < n ==> out@[j] == mix_word_byte(
                s@.subrange(4 * (j / 4), 4 * (j / 4) + 4),
                j % 4,
            ),
        decreases 16 - n,
    {
        let w = n / 4;
        let m = n % 4;
        let t0 = gf_mul_coeff_byte(mix_coeff_byte(m, 0), s[4 * w]);
        let t1 = gf_mul_coeff_byte(mix_coeff_byte(m, 1), s[4 * w + 1]);
        let t2 = gf_mul_coeff_byte(mix_coeff_byte(m, 2), s[4 * w + 2]);
        let t3 = gf_mul_coeff_byte(mix_coeff_byte(m, 3), s[4 * w + 3]);
        let v = ((t0 ^ t1) ^ t2) ^ t3;
        proof {
            let word = s@.subrange(4 * (n as int / 4), 4 * (n as int / 4) + 4);
            assert(word[0] == s@[4 * (n as int / 4)]);
            assert(v == mix_word_byte(word, n as int % 4));
        }
        out.push(v);
        n = n + 1;
    }
    proof {
        assert(out@ =~= mix_columns(s@));
    }
    out
}

/// One MixColumns coefficient of the fixed matrix.
pub fn mix_coeff_byte(m: usize, j: usize) -> (r: u8)
    requires
        m < 4,
        j < 4,
    ensures
        r == mix_coeff(m as int, j as int),
{
    if m == 0 {
        if j == 0 {
            2
        } else if j == 1 {
            3
        } else {
            1
        }
    } else if m == 1 {
        if j == 1 {
            2
        } else if j == 2 {
            3
        } else {
            1
        }
    } else if m == 2 {
        if j == 2 {
            2
        } else if j == 3 {
            3
        } else {
            1
        }
    } else {
        if j == 3 {
            2
        } else if j == 0 {
            3
        } else {
            1
        }
    }
}

/// One round of the key schedule on the 16 bytes of the previous round.
fn expand_round(prev: &Vec<u8>, round: u32) -> (r: Vec<u8>)
    requires
        prev@.len() == 16,
        1 <= round <= 10,
    ensures
        r@.len() == 16,
        r@ == next_round_bytes(prev@, round as int),
{
    let ghost rr = round as int;
    let rc = get_round_constant(round - 1);

    // Word 0: previous word 0 XOR S-box of the rotated last word XOR the
    // round-constant word.
    let mut word: Vec<u8> = Vec::new();
    word.push(xor_bytes(prev[0], xor_bytes(sub_byte(prev[13]), rc)));
    word.push(xor_bytes(prev[1], xor_bytes(sub_byte(prev[14]), 0)));
    word.push(xor_bytes(prev[2], xor_bytes(sub_byte(prev[15]), 0)));
    word.push(xor_bytes(prev[3], xor_bytes(sub_byte(prev[12]), 0)));
    proof {
        assert(rot_word(prev@.subrange(12, 16)) =~= seq![prev@[13], prev@[14], prev@[15], prev@[12]]);
        assert(word@ =~= next_round_word(prev@, rr, 0));
    }
    let mut out: Vec<u8> = Vec::new();
    let mut k: usize = 0;
    while k < 4
        invariant
            k <= 4,
            out@.len() == k,
            word@.len() == 4,
            forall|j: int| 0 <= j < k ==> out@[j] == word@[j],
        decreases 4 - k,
    {
        out.push(word[k]);
        k = k + 1;
    }
    proof {
        assert forall|n: int| 0 <= n < 4 implies out@[n] == next_round_word(prev@, rr, n / 4)[n
            % 4] by {
            assert(n / 4 == 0 && n % 4 == n) by (nonlinear_arith)
                requires
                    0 <= n < 4,
            ;
        }
    }

    // Words 1 to 3.
    let mut w: usize = 1;
    while w < 4
        invariant
            1 <= w <= 4,
            out@.len() == 4 * w,
            word@.len() == 4,
            prev@.len() == 16,
            word@ == next_round_word(prev@, rr, w - 1),
            forall|n: int| 0 <= n < 4 * w ==> out@[n] == next_round_word(prev@, rr, n / 4)[n % 4],
        decreases 4 - w,
    {
        let mut next_word: Vec<u8> = Vec::new();
        let mut k: usize = 0;
        while k < 4
            invariant
                k <= 4,
                1 <= w < 4,
                next_word@.len() == k,
                word@.len() == 4,
                prev@.len() == 16,
                forall|j: int| 0 <= j < k ==> next_word@[j] == (prev@[4 * w + j] ^ word@[j]),
            decreases 4 - k,
        {
            next_word.push(xor_bytes(prev[4 * w + k], word[k]));
            k = k + 1;
        }
        proof {
            assert(next_word@ =~= next_round_word(prev@, rr, w as int));
        }
        word = next_word;
        let mut k: usize = 0;
        while k < 4
            invariant
                k <= 4,
                1 <= w < 4,
                out@.len() == 4 * w + k,
                word@.len() == 4,
                word@ == next_round_word(prev@, rr, w as int),
                forall|n: int| 0 <= n < 4 * w + k ==> out@[n] == next_round_word(prev@, rr, n / 4)[n
                    % 4],
            decreases 4 - k,
        {
            out.push(word[k]);
            proof {
                let n = 4 * w + k;
                assert(n / 4 == w as int && n % 4 == k as int) by (nonlinear_arith)
                    requires
                        n == 4 * (w as int) + k && 0 <= k < 4 && 1 <= w < 4,
                ;
            }
            k = k + 1;
        }
        w = w + 1;
    }

    proof {
        assert forall|n: int| 0 <= n < 16 implies out@[n] == next_round_bytes(prev@, rr)[n] by {
            assert(out@[n] == next_round_word(prev@, rr, n / 4)[n % 4]);
        }
        assert(out@ =~= next_round_bytes(prev@, rr));
    }
    out
}

/// The FIPS-197 key expansion: 176 bytes, 44 words, eleven round keys.
pub fn expand_key(key: &[u8; 16]) -> (r: Vec<u8>)
    ensures
        r@.len() == 176,
        r@ == expanded_key(key@),
{
    let mut round: Vec<u8> = Vec::new();
    let mut i: usize = 0;
    while i < 16
        invariant
            i <= 16,
            round@.len() == i,
            forall|j: int| 0 <= j < i ==> round@[j] == key@[j],
        decreases 16 - i,
    {
        round.push(key[i]);
        i = i + 1;
    }
    proof {
        assert(round@ =~= key@);
        lemma_key_round_zero(key@);
    }

    let mut out: Vec<u8> = Vec::new();
    let mut r: u32 = 0;
    while r < 11
        invariant
            r <= 11,
            out@.len() == 16 * r,
            round@.len() == 16,
            key@.len() == 16,
            r < 11 ==> round@ == key_round_bytes(key@, r as int),
            forall|n: int| 0 <= n < 16 * r ==> out@[n] == expanded_key(key@)[n],
        decreases 11 - r,
    {
        let mut k: usize = 0;
        while k < 16
            invariant
                k <= 16,
                r < 11,
                out@.len() == 16 * r + k,
                round@.len() == 16,
                key@.len() == 16,
                round@ == key_round_bytes(key@, r as int),
                forall|n: int| 0 <= n < 16 * r + k ==> out@[n] == expanded_key(key@)[n],
            decreases 16 - k,
        {
            out.push(round[k]);
            proof {
                let n = 16 * (r as int) + k;
                lemma_round_key_bytes(key@, r as int);
                assert(round_key(expanded_key(key@), r as int)[k as int] == expanded_key(key@)[n]);
            }
            k = k + 1;
        }
        if r < 10 {
            let next = expand_round(&round, r + 1);
            proof {
                lemma_next_round_bytes(key@, r as int + 1);
            }
            round = next;
        }
        r = r + 1;
    }
    out
}

/// The 16-byte round key `r` out of a 176-byte expanded key.
pub fn round_key_block(ks: &Vec<u8>, r: usize) -> (out: Vec<u8>)
    requires
        ks@.len() == 176,
        r < 11,
    ensures
        out@ == round_key(ks@, r as int),
{
    let mut out: Vec<u8> = Vec::new();
    let mut i: usize = 0;
    while i < 16
        invariant
            i <= 16,
            r < 11,
            ks@.len() == 176,
            out@.len() == i,
            forall|j: int| 0 <= j < i ==> out@[j] == ks@[16 * r + j],
        decreases 16 - i,
    {
        out.push(ks[16 * r + i]);
        i = i + 1;
    }
    proof {
        assert(out@ =~= round_key(ks@, r as int));
    }
    out
}

/// AES-128 encryption of one 16-byte block: AddRoundKey with round key 0,
/// then ten rounds of SubBytes, ShiftRows, MixColumns (omitted in round 10)
/// and AddRoundKey.
pub fn encrypt_block(key: &[u8; 16], plaintext: &[u8; 16]) -> (r: Vec<u8>)
    ensures
        r@.len() == 16,
        r@ == aes128_encrypt(key@, plaintext@),
{
    let ks = expand_key(key);

    let mut state: Vec<u8> = Vec::new();
    let mut i: usize = 0;
    while i < 16
        invariant
            i <= 16,
            state@.len() == i,
            forall|j: int| 0 <= j < i ==> state@[j] == plaintext@[j],
        decreases 16 - i,
    {
        state.push(plaintext[i]);
        i = i + 1;
    }
    proof {
        assert(state@ =~= plaintext@);
    }

    let rk0 = round_key_block(&ks, 0);
    let mut state = xor_block(&state, &rk0);
    proof {
        assert(state@ == enc_after(plaintext@, ks@, 0));
    }

    let mut round: usize = 1;
    while round <= 10
        invariant
            1 <= round <= 11,
            ks@.len() == 176,
            ks@ == expanded_key(key@),
            state@.len() == 16,
            state@ == enc_after(plaintext@, ks@, round - 1),
        decreases 11 - round,
    {
        let ghost s0 = state@;
        let subbed = sub_bytes_block(&state);
        let shifted = shift_rows_block(&subbed);
        let mixed = if round == 10 {
            shifted
        } else {
            mix_columns_block(&shifted)
        };
        let rk = round_key_block(&ks, round);
        state = xor_block(&mixed, &rk);
        proof {
            assert(state@ == aes_round(s0, round_key(ks@, round as int), round == 10));
        }
        round = round + 1;
    }
    state
}

} // verus!
