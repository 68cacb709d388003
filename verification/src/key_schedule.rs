//! The key-expansion state machine: a 16-byte key becomes eleven 16-byte
//! round keys (44 four-byte words), assigned as byte cells and constrained
//! through the XOR, S-box and range-check chips plus a fixed column of
//! round constants with an equality gate.

use vstd::prelude::*;

use halo2_proofs::circuit::Layouter;
use halo2_proofs::pasta::Fp;

use crate::cell::{duplicate_cells, values, ByteCell};
use crate::chips::sbox_chip::{SboxChip, SboxConfig};
use crate::chips::u8_range_check_chip::{U8RangeCheckChip, U8RangeCheckConfig};
use crate::chips::u8_xor_chip::{U8XorChip, U8XorConfig};
use crate::halo2_api::{clone_cell, cs_advice_column, cs_enable_constant, cs_enable_equality,
    cs_fixed_column, cs_gate_advice_equals_fixed, cs_selector, synth_bytes_region,
    synth_copies_region, synth_rcon_word_region, AdviceColumn, AdviceGroup, CellHandle,
    FixedColumn, GateSelector, MetaCtx, SynthError};
use crate::model::{expanded_key, key_round_bytes, lemma_key_round_zero, lemma_next_round_bytes,
    lemma_round_key_bytes, next_round_bytes, next_round_word, rcon_word, rot_word, round_key,
    sbox_val, sub_bytes, xor_seq};
use crate::utils::get_round_constant;

verus! {

/// Configuration of the key-expansion state machine.
#[derive(Clone, Copy)]
pub struct Aes128KeyScheduleConfig {
    /// The column holding the schedule's words and round constants.
    pub words_column: AdviceColumn,
    /// The fixed column carrying the round constants.
    pub round_constants: FixedColumn,
    /// Selector of the equality gate pinning assigned round constants to
    /// the fixed column.
    pub q_eq_rcon: GateSelector,
    /// The range-check chip used on every output byte.
    pub u8_range_check_config: U8RangeCheckConfig,
    /// The XOR chip driving the word folds.
    pub u8_xor_config: U8XorConfig,
    /// The S-box chip used on the rotated last word.
    pub sbox_config: SboxConfig,
}

impl Aes128KeyScheduleConfig {
    /// Allocate the words column and the round-constant fixed column, enable
    /// equality on the advice columns, and declare the equality gate
    /// `q_eq_rcon · (words − round_constants) = 0` that pins each assigned
    /// round constant to its fixed value.
    pub fn configure(
        meta: &mut MetaCtx<'_>,
        advices: AdviceGroup,
        u8_xor_config: U8XorConfig,
        sbox_config: SboxConfig,
        u8_range_check_config: U8RangeCheckConfig,
    ) -> (r: Self)
        ensures
            r.u8_xor_config == u8_xor_config,
            r.sbox_config == sbox_config,
            r.u8_range_check_config == u8_range_check_config,
    {
        let words_column = cs_advice_column(meta);
        let round_constants = cs_fixed_column(meta);
        let q_eq_rcon = cs_selector(meta);

        cs_enable_equality(meta, advices.x);
        cs_enable_equality(meta, advices.y);
        cs_enable_equality(meta, advices.z);
        cs_enable_equality(meta, words_column);
        cs_enable_constant(meta, round_constants);
        cs_gate_advice_equals_fixed(meta, "Equality RC", q_eq_rcon, words_column, round_constants);

        Aes128KeyScheduleConfig {
            words_column,
            round_constants,
            q_eq_rcon,
            u8_range_check_config,
            u8_xor_config,
            sbox_config,
        }
    }

    /// Expand the 16-byte key into eleven rounds of 16 byte cells each.
    /// On success, the bytes of round `i` are exactly round key `i` of the
    /// FIPS-197 expansion of `key`.
    pub fn schedule_keys<L: Layouter<Fp>>(&self, layouter: &mut L, key: [u8; 16]) -> (r: Result<
        Vec<Vec<ByteCell>>,
        SynthError,
    >)
        ensures
            r is Ok ==> r->Ok_0@.len() == 11,
            r is Ok ==> forall|i: int|
                0 <= i < 11 ==> (#[trigger] r->Ok_0@[i])@.len() == 16,
            r is Ok ==> forall|i: int|
                0 <= i < 11 ==> values((#[trigger] r->Ok_0@[i])@) == round_key(
                    expanded_key(key@),
                    i,
                ),
    {
        let mut words: Vec<Vec<ByteCell>> = Vec::new();

        let mut round = match self.assign_first_round(layouter, &key) {
            Ok(v) => v,
            Err(e) => {
                return Err(e);
            },
        };
        proof {
            lemma_key_round_zero(key@);
        }
        words.push(duplicate_cells(&round));

        let mut i: u32 = 1;
        while i <= 10
            invariant
                1 <= i <= 11,
                words@.len() == i,
                round@.len() == 16,
                values(round@) == key_round_bytes(key@, i - 1),
                key@.len() == 16,
                forall|j: int| 0 <= j < i ==> (#[trigger] words@[j])@.len() == 16,
                forall|j: int| 0 <= j < i ==> values((#[trigger] words@[j])@) == key_round_bytes(
                    key@,
                    j,
                ),
            decreases 11 - i,
        {
            let next = match self.assign_round(layouter, i, &round) {
                Ok(v) => v,
                Err(e) => {
                    return Err(e);
                },
            };
            proof {
                lemma_next_round_bytes(key@, i as int);
            }
            round = next;
            words.push(duplicate_cells(&round));
            i = i + 1;
        }

        proof {
            assert forall|j: int| 0 <= j < 11 implies values((#[trigger] words@[j])@) == round_key(
                expanded_key(key@),
                j,
            ) by {
                lemma_round_key_bytes(key@, j);
            }
        }
        Ok(words)
    }

    /// Assign the 16 key bytes themselves as round 0.
    fn assign_first_round<L: Layouter<Fp>>(&self, layouter: &mut L, key: &[u8; 16]) -> (r: Result<
        Vec<ByteCell>,
        SynthError,
    >)
        ensures
            r is Ok ==> r->Ok_0@.len() == 16,
            r is Ok ==> values(r->Ok_0@) == key@,
    {
        let mut vals: Vec<u8> = Vec::new();
        let mut i: usize = 0;
        while i < 16
            invariant
                i <= 16,
                vals@.len() == i,
                forall|k: int| 0 <= k < i ==> vals@[k] == key@[k],
            decreases 16 - i,
        {
            vals.push(key[i]);
            i = i + 1;
        }
        proof {
            assert(vals@ =~= key@);
        }

        let handles = match synth_bytes_region(
            layouter,
            "first round words",
            self.words_column,
            &vals,
        ) {
            Ok(v) => v,
            Err(e) => {
                return Err(e);
            },
        };

        let mut out: Vec<ByteCell> = Vec::new();
        let mut k: usize = 0;
        while k < 16
            invariant
                k <= 16,
                out@.len() == k,
                handles@.len() == 16,
                vals@.len() == 16,
                forall|j: int| 0 <= j < k ==> out@[j].value == vals@[j],
            decreases 16 - k,
        {
            out.push(ByteCell { cell: clone_cell(&handles[k]), value: vals[k] });
            k = k + 1;
        }
        proof {
            assert(values(out@) =~= key@);
        }
        Ok(out)
    }

    /// Produce the 16 byte cells of round `round` from the previous round:
    /// rotate the last word by equality copies, substitute it through the
    /// S-box chip, XOR in the round-constant word, then fold the four words
    /// with the XOR chip and range-check every output byte.
    fn assign_round<L: Layouter<Fp>>(
        &self,
        layouter: &mut L,
        round: u32,
        prev: &Vec<ByteCell>,
    ) -> (r: Result<Vec<ByteCell>, SynthError>)
        requires
            1 <= round <= 10,
            prev@.len() == 16,
        ensures
            r is Ok ==> r->Ok_0@.len() == 16,
            r is Ok ==> values(r->Ok_0@) == next_round_bytes(values(prev@), round as int),
    {
        let xor_chip = U8XorChip::construct(self.u8_xor_config);
        let sbox_chip = SboxChip::construct(self.sbox_config);
        let range_chip = U8RangeCheckChip::construct(self.u8_range_check_config);
        let ghost prev_vals = values(prev@);
        let ghost rr = round as int;

        // The last word of the previous round, rotated one byte left,
        // copied into fresh rows of the words column.
        let mut rot_handles: Vec<CellHandle> = Vec::new();
        rot_handles.push(clone_cell(&prev[13].cell));
        rot_handles.push(clone_cell(&prev[14].cell));
        rot_handles.push(clone_cell(&prev[15].cell));
        rot_handles.push(clone_cell(&prev[12].cell));
        let copied = match synth_copies_region(
            layouter,
            "rotate previous word",
            self.words_column,
            &rot_handles,
        ) {
            Ok(v) => v,
            Err(e) => {
                return Err(e);
            },
        };
        let mut shifted: Vec<ByteCell> = Vec::new();
        shifted.push(ByteCell { cell: clone_cell(&copied[0]), value: prev[13].value });
        shifted.push(ByteCell { cell: clone_cell(&copied[1]), value: prev[14].value });
        shifted.push(ByteCell { cell: clone_cell(&copied[2]), value: prev[15].value });
        shifted.push(ByteCell { cell: clone_cell(&copied[3]), value: prev[12].value });
        proof {
            assert(values(shifted@) =~= rot_word(prev_vals.subrange(12, 16)));
        }

        // S-box substitution of the rotated word.
        let mut subbed: Vec<ByteCell> = Vec::new();
        let mut k: usize = 0;
        while k < 4
            invariant
                k <= 4,
                subbed@.len() == k,
                shifted@.len() == 4,
                forall|j: int| 0 <= j < k ==> subbed@[j].value == sbox_val(shifted@[j].value),
            decreases 4 - k,
        {
            match sbox_chip.substitute(layouter, &shifted[k]) {
                Ok(c) => subbed.push(c),
                Err(e) => {
                    return Err(e);
                },
            }
            k = k + 1;
        }
        proof {
            assert(values(subbed@) =~= sub_bytes(values(shifted@)));
        }

        // The round-constant word [rc, 0, 0, 0], its first byte pinned to
        // the fixed column by the equality gate.
        let rc = get_round_constant(round - 1);
        let rc_handles = match synth_rcon_word_region(
            layouter,
            "round constant word",
            self.q_eq_rcon,
            self.words_column,
            self.round_constants,
            rc,
        ) {
            Ok(v) => v,
            Err(e) => {
                return Err(e);
            },
        };
        let mut rc_word: Vec<ByteCell> = Vec::new();
        rc_word.push(ByteCell { cell: clone_cell(&rc_handles[0]), value: rc });
        rc_word.push(ByteCell { cell: clone_cell(&rc_handles[1]), value: 0 });
        rc_word.push(ByteCell { cell: clone_cell(&rc_handles[2]), value: 0 });
        rc_word.push(ByteCell { cell: clone_cell(&rc_handles[3]), value: 0 });
        proof {
            assert(values(rc_word@) =~= rcon_word(rr - 1));
        }

        // XOR the substituted word with the round-constant word.
        let mut rconned: Vec<ByteCell> = Vec::new();
        let mut k: usize = 0;
        while k < 4
            invariant
                k <= 4,
                rconned@.len() == k,
                subbed@.len() == 4,
                rc_word@.len() == 4,
                forall|j: int| 0 <= j < k ==> rconned@[j].value == (subbed@[j].value
                    ^ rc_word@[j].value),
            decreases 4 - k,
        {
            match xor_chip.xor(layouter, &subbed[k], &rc_word[k]) {
                Ok(c) => rconned.push(c),
                Err(e) => {
                    return Err(e);
                },
            }
            k = k + 1;
        }
        proof {
            assert(values(rconned@) =~= xor_seq(values(subbed@), values(rc_word@)));
        }

        // Word 0 of the new round.
        let mut out: Vec<ByteCell> = Vec::new();
        let mut word: Vec<ByteCell> = Vec::new();
        let mut k: usize = 0;
        while k < 4
            invariant
                k <= 4,
                word@.len() == k,
                prev@.len() == 16,
                rconned@.len() == 4,
                forall|j: int| 0 <= j < k ==> word@[j].value == (prev@[j].value
                    ^ rconned@[j].value),
            decreases 4 - k,
        {
            match xor_chip.xor(layouter, &prev[k], &rconned[k]) {
                Ok(c) => word.push(c),
                Err(e) => {
                    return Err(e);
                },
            }
            k = k + 1;
        }
        proof {
            assert(prev_vals.subrange(0, 4) =~= values(prev@).subrange(0, 4));
            assert(values(word@) =~= next_round_word(prev_vals, rr, 0));
        }
        let mut k: usize = 0;
        while k < 4
            invariant
                k <= 4,
                out@.len() == k,
                word@.len() == 4,
                forall|j: int| 0 <= j < k ==> out@[j].value == word@[j].value,
            decreases 4 - k,
        {
            out.push(word[k].duplicate());
            k = k + 1;
        }
        proof {
            assert forall|n: int| 0 <= n < 4 implies out@[n].value == next_round_word(
                prev_vals,
                rr,
                n / 4,
            )[n % 4] by {
                assert(n / 4 == 0 && n % 4 == n) by (nonlinear_arith)
                    requires
                        0 <= n < 4,
                ;
                assert(out@[n].value == word@[n].value);
                assert(values(word@)[n] == word@[n].value);
            }
        }

        // Words 1 to 3: XOR the previous round's word with the word just made.
        let mut w: usize = 1;
        while w < 4
            invariant
                1 <= w <= 4,
                out@.len() == 4 * w,
                word@.len() == 4,
                prev@.len() == 16,
                prev_vals == values(prev@),
                values(word@) == next_round_word(prev_vals, rr, w - 1),
                forall|n: int| 0 <= n < 4 * w ==> out@[n].value == next_round_word(
                    prev_vals,
                    rr,
                    n / 4,
                )[n % 4],
            decreases 4 - w,
        {
            let mut next_word: Vec<ByteCell> = Vec::new();
            let mut k: usize = 0;
            while k < 4
                invariant
                    k <= 4,
                    1 <= w < 4,
                    next_word@.len() == k,
                    word@.len() == 4,
                    prev@.len() == 16,
                    forall|j: int| 0 <= j < k ==> next_word@[j].value == (prev@[4 * w + j].value
                        ^ word@[j].value),
                decreases 4 - k,
            {
                match xor_chip.xor(layouter, &prev[4 * w + k], &word[k]) {
                    Ok(c) => next_word.push(c),
                    Err(e) => {
                        return Err(e);
                    },
                }
                k = k + 1;
            }
            proof {
                assert(prev_vals.subrange(4 * w as int, 4 * w as int + 4) =~= values(
                    prev@,
                ).subrange(4 * w as int, 4 * w as int + 4));
                assert(values(next_word@) =~= next_round_word(prev_vals, rr, w as int));
            }
            word = next_word;
            let mut k: usize = 0;
            while k < 4
                invariant
                    k <= 4,
                    1 <= w < 4,
                    out@.len() == 4 * w + k,
                    word@.len() == 4,
                    values(word@) == next_round_word(prev_vals, rr, w as int),
                    forall|n: int| 0 <= n < 4 * w + k ==> out@[n].value == next_round_word(
                        prev_vals,
                        rr,
                        n / 4,
                    )[n % 4],
                decreases 4 - k,
            {
                out.push(word[k].duplicate());
                proof {
                    let n = 4 * w + k;
                    assert(n / 4 == w as int && n % 4 == k as int) by (nonlinear_arith)
                        requires
                            n == 4 * (w as int) + k && 0 <= k < 4 && 1 <= w < 4,
                    ;
                }
                k = k + 1;
            }
            w = w + 1;
        }

        // Range-check every output byte.
        let mut k: usize = 0;
        while k < 16
            invariant
                k <= 16,
                out@.len() == 16,
            decreases 16 - k,
        {
            match range_chip.range_check(layouter, &out[k]) {
                Ok(()) => (),
                Err(e) => {
                    return Err(e);
                },
            }
            k = k + 1;
        }

        proof {
            assert forall|n: int| 0 <= n < 16 implies values(out@)[n] == next_round_bytes(
                prev_vals,
                rr,
            )[n] by {
                assert(out@[n].value == next_round_word(prev_vals, rr, n / 4)[n % 4]);
            }
            assert(values(out@) =~= next_round_bytes(prev_vals, rr));
        }
        Ok(out)
    }
}

} // verus!
