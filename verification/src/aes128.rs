//! The AES-128 circuit: column groups, the scheduler that rotates between
//! them, key scheduling and the ten-round encryption pipeline.
//!
//! The configuration owns `n` independent groups of three advice columns,
//! each with its own five chip configurations, all looking up into one
//! shared tagged table. A row budget of `2^k` rows per column, less the
//! rows reserved for the key schedule, admits a fixed number of AES blocks
//! per group; the scheduler advances to the next group when the active one
//! is full and fails once every group is full.

use vstd::prelude::*;

use halo2_proofs::circuit::Layouter;
use halo2_proofs::pasta::Fp;

use crate::cell::{values, ByteCell};
use crate::chips::gf_mul_chip::{MulBy2Chip, MulBy2Config, MulBy3Chip, MulBy3Config};
use crate::chips::sbox_chip::{SboxChip, SboxConfig};
use crate::chips::u8_range_check_chip::{U8RangeCheckChip, U8RangeCheckConfig};
use crate::chips::u8_xor_chip::{U8XorChip, U8XorConfig};
use crate::halo2_api::{cs_advice_column, cs_complex_selector, cs_enable_equality,
    cs_lookup_table_column, synth_bytes_region, synth_copy_row, AdviceGroup, MetaCtx};
use crate::key_schedule::Aes128KeyScheduleConfig;
use crate::model::{aes128_with_keys, aes_round, enc_after_rk, expanded_key, gf_mul_coeff,
    mix_coeff, mix_columns, mix_word_byte, round_key, sbox_val, shift_rows, sub_bytes, xor_seq};
use crate::table::EncTableColumns;
use crate::error::AesError;

verus! {

/// Advice rows one AES block costs in a group's first column: 16 plaintext
/// rows, 16 XOR rows for the initial AddRoundKey, and per round 16 S-box
/// rows, 112 MixColumns rows in rounds 1 to 9 (per word: four
/// coefficient rows and three XOR rows for each of the four output bytes)
/// and 16 AddRoundKey rows.
pub const AES_ROWS: u64 = 1360;

/// Advice rows the key schedule costs in a group's first column: per round,
/// 4 S-box rows, 4 + 16 XOR rows and 16 range-check rows, over ten rounds.
pub const KEY_SCHEDULE_ROWS: u64 = 400;

/// AES blocks one column group admits: the `2^k` row budget, less the rows
/// reserved for the key schedule, divided by the rows of one block.
pub open spec fn group_capacity(k: u32) -> int {
    if (1u64 << k) >= KEY_SCHEDULE_ROWS {
        (((1u64 << k) - KEY_SCHEDULE_ROWS) as int) / (AES_ROWS as int)
    } else {
        0
    }
}

/// AES blocks the whole configuration admits: `n` groups of equal capacity.
pub open spec fn total_capacity(k: u32, n: int) -> int {
    n * group_capacity(k)
}

/// Whether a MixColumns coefficient is one the chips can realize.
pub open spec fn valid_mix_coeff(c: u8) -> bool {
    c == 1 || c == 2 || c == 3
}

/// The AES-128 circuit configuration with `n` column groups over a `2^k`
/// row budget. Both parameters are fixed for the lifetime of a
/// configuration: they are given to [`FixedAes128Config::configure`] and
/// never change afterwards.
#[derive(Clone)]
pub struct FixedAes128Config {
    k: u32,
    n: usize,
    keys: Option<Vec<Vec<ByteCell>>>,
    /// The key-schedule state machine, running in column group 0.
    pub key_schedule_config: Aes128KeyScheduleConfig,
    range_configs: Vec<U8RangeCheckConfig>,
    xor_configs: Vec<U8XorConfig>,
    sbox_configs: Vec<SboxConfig>,
    mul2_configs: Vec<MulBy2Config>,
    mul3_configs: Vec<MulBy3Config>,
    /// The advice columns of each group.
    pub advices: Vec<AdviceGroup>,
    /// The four columns of the shared tagged table.
    pub tables: EncTableColumns,
    current: usize,
    count: u64,
}

impl FixedAes128Config {
    /// Structural soundness of the configuration: one chip configuration of
    /// each kind per group, a valid active group, a block count within the
    /// group capacity, and eleven rounds of 16 cells each once scheduled.
    pub closed spec fn wf(self) -> bool {
        &&& self.n >= 1
        &&& self.k < 64
        &&& self.advices@.len() == self.n
        &&& self.range_configs@.len() == self.n
        &&& self.xor_configs@.len() == self.n
        &&& self.sbox_configs@.len() == self.n
        &&& self.mul2_configs@.len() == self.n
        &&& self.mul3_configs@.len() == self.n
        &&& self.current < self.n
        &&& self.count <= group_capacity(self.k)
        &&& match self.keys {
            Some(ks) => ks@.len() == 11 && forall|i: int|
                0 <= i < 11 ==> (#[trigger] ks@[i])@.len() == 16,
            None => true,
        }
    }

    /// Whether a key schedule has been assigned.
    pub closed spec fn keys_scheduled(self) -> bool {
        self.keys is Some
    }

    /// The byte values of the scheduled round keys, one 16-byte sequence per
    /// round.
    pub closed spec fn round_key_values(self) -> Seq<Seq<u8>> {
        match self.keys {
            Some(ks) => ks@.map_values(|w: Vec<ByteCell>| values(w@)),
            None => Seq::empty(),
        }
    }

    /// Blocks already consumed across the groups.
    pub closed spec fn consumed(self) -> int {
        self.current * group_capacity(self.k) + self.count
    }

    /// Blocks the configuration admits in total.
    pub closed spec fn capacity(self) -> int {
        total_capacity(self.k, self.n as int)
    }

    /// The advice-column groups, as a spec value usable in public contracts.
    pub closed spec fn group_columns(self) -> Seq<AdviceGroup> {
        self.advices@
    }

    /// The shared table columns, as a spec value usable in public contracts.
    pub closed spec fn table_columns(self) -> EncTableColumns {
        self.tables
    }

    /// The key-schedule configuration, as a spec value usable in public
    /// contracts.
    pub closed spec fn schedule_config(self) -> Aes128KeyScheduleConfig {
        self.key_schedule_config
    }

    /// The private part of the circuit layout, fixed at `configure` time:
    /// the `(k, n)` parameters and the five chip configurations of every
    /// group. Together with [`Self::group_columns`], [`Self::table_columns`]
    /// and [`Self::schedule_config`] it makes up everything `configure`
    /// allocates, as opposed to the per-proof scheduling state.
    pub closed spec fn chip_layout(self) -> (
        u32,
        usize,
        Seq<U8RangeCheckConfig>,
        Seq<U8XorConfig>,
        Seq<SboxConfig>,
        Seq<MulBy2Config>,
        Seq<MulBy3Config>,
    ) {
        (
            self.k,
            self.n,
            self.range_configs@,
            self.xor_configs@,
            self.sbox_configs@,
            self.mul2_configs@,
            self.mul3_configs@,
        )
    }

    /// The number of AES blocks this configuration admits in total:
    /// `n · ⌊(2^k − KEY_SCHEDULE_ROWS) / AES_ROWS⌋`.
    pub fn capacity_blocks(&self) -> (r: u128)
        requires
            self.wf(),
        ensures
            r == self.capacity(),
    {
        let budget: u64 = 1u64 << self.k;
        let cap: u64 = if budget >= KEY_SCHEDULE_ROWS {
            (budget - KEY_SCHEDULE_ROWS) / AES_ROWS
        } else {
            0
        };
        proof {
            let nn = self.n as int;
            let cc = cap as int;
            assert(nn * cc <= 0xfffffffffffffffe0000000000000001) by (nonlinear_arith)
                requires
                    0 <= nn && nn <= 0xffffffffffffffff && 0 <= cc && cc <= 0xffffffffffffffff,
            ;
        }
        (self.n as u128) * (cap as u128)
    }

    /// Allocate the shared table columns, `n` groups of three advice columns
    /// with their five chip configurations each, and the key-schedule
    /// configuration on group 0; enable equality on every advice column.
    pub fn configure(meta: &mut MetaCtx<'_>, k: u32, n: usize) -> (r: Self)
        requires
            1 <= n,
            k < 64,
        ensures
            r.wf(),
            !r.keys_scheduled(),
            r.consumed() == 0,
            r.capacity() == total_capacity(k, n as int),
            r.group_columns().len() == n,
    {
        let tables = EncTableColumns {
            tag: cs_lookup_table_column(meta),
            x: cs_lookup_table_column(meta),
            y: cs_lookup_table_column(meta),
            z: cs_lookup_table_column(meta),
        };

        let mut advices: Vec<AdviceGroup> = Vec::new();
        let mut range_configs: Vec<U8RangeCheckConfig> = Vec::new();
        let mut xor_configs: Vec<U8XorConfig> = Vec::new();
        let mut sbox_configs: Vec<SboxConfig> = Vec::new();
        let mut mul2_configs: Vec<MulBy2Config> = Vec::new();
        let mut mul3_configs: Vec<MulBy3Config> = Vec::new();

        let mut i: usize = 0;
        while i < n
            invariant
                i <= n,
                advices@.len() == i,
                range_configs@.len() == i,
                xor_configs@.len() == i,
                sbox_configs@.len() == i,
                mul2_configs@.len() == i,
                mul3_configs@.len() == i,
            decreases n - i,
        {
            let group = AdviceGroup {
                x: cs_advice_column(meta),
                y: cs_advice_column(meta),
                z: cs_advice_column(meta),
            };
            let q_u8_range_check = cs_complex_selector(meta);
            let q_u8_xor = cs_complex_selector(meta);
            let q_sbox = cs_complex_selector(meta);
            let q_mul_by_2 = cs_complex_selector(meta);
            let q_mul_by_3 = cs_complex_selector(meta);

            range_configs.push(
                U8RangeCheckChip::configure(meta, group.x, q_u8_range_check, tables.tag, tables.x),
            );
            xor_configs.push(
                U8XorChip::configure(
                    meta,
                    group.x,
                    group.y,
                    group.z,
                    q_u8_xor,
                    tables.tag,
                    tables.x,
                    tables.y,
                    tables.z,
                ),
            );
            sbox_configs.push(
                SboxChip::configure(meta, group.x, group.y, q_sbox, tables.tag, tables.x, tables.y),
            );
            mul2_configs.push(
                MulBy2Chip::configure(
                    meta,
                    group.x,
                    group.y,
                    q_mul_by_2,
                    tables.tag,
                    tables.x,
                    tables.y,
                ),
            );
            mul3_configs.push(
                MulBy3Chip::configure(
                    meta,
                    group.x,
                    group.y,
                    q_mul_by_3,
                    tables.tag,
                    tables.x,
                    tables.y,
                ),
            );
            cs_enable_equality(meta, group.x);
            cs_enable_equality(meta, group.y);
            cs_enable_equality(meta, group.z);
            advices.push(group);
            i = i + 1;
        }

        let key_schedule_config = Aes128KeyScheduleConfig::configure(
            meta,
            advices[0],
            xor_configs[0],
            sbox_configs[0],
            range_configs[0],
        );

        FixedAes128Config {
            k,
            n,
            keys: None,
            key_schedule_config,
            range_configs,
            xor_configs,
            sbox_configs,
            mul2_configs,
            mul3_configs,
            advices,
            tables,
            current: 0,
            count: 0,
        }
    }

    /// Run the key schedule on `key` and store the resulting round-key
    /// cells. A second call replaces them: the new key is scheduled afresh.
    pub fn schedule_key<L: Layouter<Fp>>(&mut self, layouter: &mut L, key: [u8; 16]) -> (r: Result<
        (),
        AesError,
    >)
        requires
            old(self).wf(),
        ensures
            final(self).wf(),
            final(self).chip_layout() == old(self).chip_layout(),
            final(self).group_columns() == old(self).group_columns(),
            final(self).table_columns() == old(self).table_columns(),
            final(self).schedule_config() == old(self).schedule_config(),
            final(self).capacity() == old(self).capacity(),
            final(self).consumed() == old(self).consumed(),
            r is Ok ==> final(self).keys_scheduled(),
            r is Ok ==> final(self).round_key_values().len() == 11,
            r is Ok ==> forall|i: int|
                0 <= i < 11 ==> #[trigger] final(self).round_key_values()[i] == round_key(
                    expanded_key(key@),
                    i,
                ),
            r is Err ==> r->Err_0 is Synthesis && *final(self) == *old(self),
    {
        match self.key_schedule_config.schedule_keys(layouter, key) {
            Ok(round_keys) => {
                self.keys = Some(round_keys);
                proof {
                    let ks = self.keys->Some_0;
                    assert forall|i: int| 0 <= i < 11 implies #[trigger] self.round_key_values()[i]
                        == round_key(expanded_key(key@), i) by {
                        assert(self.round_key_values()[i] == values(ks@[i]@));
                    }
                }
                Ok(())
            },
            Err(e) => Err(AesError::Synthesis(e)),
        }
    }

    /// One scheduler step: stay in the active group while it has room for a
    /// block, else advance to the next group, else report exhaustion. On
    /// success one more block is accounted for.
    fn try_consume(&mut self) -> (r: bool)
        requires
            old(self).wf(),
        ensures
            final(self).wf(),
            final(self).chip_layout() == old(self).chip_layout(),
            final(self).group_columns() == old(self).group_columns(),
            final(self).table_columns() == old(self).table_columns(),
            final(self).schedule_config() == old(self).schedule_config(),
            r == (old(self).consumed() < old(self).capacity()),
            r ==> final(self).consumed() == old(self).consumed() + 1,
            !r ==> *final(self) == *old(self),
            final(self).keys == old(self).keys,
            final(self).capacity() == old(self).capacity(),
            final(self).round_key_values() == old(self).round_key_values(),
            final(self).keys_scheduled() == old(self).keys_scheduled(),
    {
        let budget: u64 = 1u64 << self.k;
        let cap: u64 = if budget >= KEY_SCHEDULE_ROWS {
            (budget - KEY_SCHEDULE_ROWS) / AES_ROWS
        } else {
            0
        };
        proof {
            assert(cap == group_capacity(self.k));
        }
        let ghost cur = self.current as int;
        let ghost cp = cap as int;
        let ghost nn = self.n as int;
        if self.count < cap {
            self.count = self.count + 1;
            proof {
                assert((cur + 1) * cp <= nn * cp && cur * cp + cp == (cur + 1) * cp)
                    by (nonlinear_arith)
                    requires
                        cur + 1 <= nn && 0 <= cp,
                ;
            }
            true
        } else if self.current + 1 < self.n && cap > 0 {
            self.current = self.current + 1;
            self.count = 1;
            proof {
                assert((cur + 1) * cp < nn * cp && cur * cp + cp == (cur + 1) * cp)
                    by (nonlinear_arith)
                    requires
                        cur + 1 < nn && 0 < cp,
                ;
            }
            true
        } else {
            proof {
                if cp == 0 {
                    assert(cur * cp == 0 && nn * cp == 0) by (nonlinear_arith)
                        requires
                            cp == 0,
                    ;
                } else {
                    assert(cur + 1 == nn);
                    assert(cur * cp + cp == nn * cp) by (nonlinear_arith)
                        requires
                            cur + 1 == nn,
                    ;
                }
            }
            false
        }
    }

    /// Encrypt one 16-byte block under the scheduled round keys. Fails with
    /// `KeysNotScheduled` before any `schedule_key` call and with
    /// `CapacityExceeded` once the blocks admitted by `(k, n)` are used up;
    /// afterwards only proof-system errors remain. On success the 16
    /// returned byte cells hold the AES-128 pipeline output for `plaintext`
    /// under the stored round keys.
    #[verifier::loop_isolation(false)]
    #[verifier::rlimit(60)]
    pub fn encrypt<L: Layouter<Fp>>(&mut self, layouter: &mut L, plaintext: [u8; 16]) -> (r:
        Result<Vec<ByteCell>, AesError>)
        requires
            old(self).wf(),
        ensures
            final(self).wf(),
            final(self).chip_layout() == old(self).chip_layout(),
            final(self).group_columns() == old(self).group_columns(),
            final(self).table_columns() == old(self).table_columns(),
            final(self).schedule_config() == old(self).schedule_config(),
            final(self).keys_scheduled() == old(self).keys_scheduled(),
            final(self).round_key_values() == old(self).round_key_values(),
            final(self).capacity() == old(self).capacity(),
            !old(self).keys_scheduled() ==> r is Err && r->Err_0 is KeysNotScheduled && *final(self)
                == *old(self),
            old(self).keys_scheduled() && old(self).consumed() >= old(self).capacity() ==> r is Err
                && r->Err_0 is CapacityExceeded && *final(self) == *old(self),
            old(self).keys_scheduled() && old(self).consumed() < old(self).capacity() ==> {
                &&& final(self).consumed() == old(self).consumed() + 1
                &&& (r is Err ==> r->Err_0 is Synthesis)
            },
            r is Ok ==> r->Ok_0@.len() == 16 && values(r->Ok_0@) == aes128_with_keys(
                plaintext@,
                old(self).round_key_values(),
            ),
    {
        match &self.keys {
            None => {
                return Err(AesError::KeysNotScheduled);
            },
            Some(_) => (),
        }
        if !self.try_consume() {
            return Err(AesError::CapacityExceeded);
        }
        let ghost self_snap = *self;

        let xor_chip = U8XorChip::construct(self.xor_configs[self.current]);
        let sbox_chip = SboxChip::construct(self.sbox_configs[self.current]);
        let group = self.advices[self.current];
        let ghost rkv = self.round_key_values();

        let keys = match &self.keys {
            Some(ks) => ks,
            None => {
                proof {
                    assert(false);
                }
                return Err(AesError::KeysNotScheduled);
            },
        };
        proof {
            assert(forall|i: int| 0 <= i < 11 ==> rkv[i] == values((#[trigger] keys@[i])@));
        }

        // Assign the plaintext bytes in the active group.
        let mut pt_vals: Vec<u8> = Vec::new();
        let mut i: usize = 0;
        while i < 16
            invariant
                *self == self_snap,
                i <= 16,
                pt_vals@.len() == i,
                forall|j: int| 0 <= j < i ==> pt_vals@[j] == plaintext@[j],
            decreases 16 - i,
        {
            pt_vals.push(plaintext[i]);
            i = i + 1;
        }
        let handles = match synth_bytes_region(layouter, "plaintext", group.x, &pt_vals) {
            Ok(v) => v,
            Err(e) => {
                return Err(AesError::Synthesis(e));
            },
        };
        let mut state: Vec<ByteCell> = Vec::new();
        let mut i: usize = 0;
        while i < 16
            invariant
                *self == self_snap,
                i <= 16,
                state@.len() == i,
                handles@.len() == 16,
                pt_vals@.len() == 16,
                forall|j: int| 0 <= j < i ==> state@[j].value == pt_vals@[j],
            decreases 16 - i,
        {
            state.push(
                ByteCell { cell: crate::halo2_api::clone_cell(&handles[i]), value: pt_vals[i] },
            );
            i = i + 1;
        }

        // AddRoundKey with round key 0.
        let mut keyed: Vec<ByteCell> = Vec::new();
        let mut i: usize = 0;
        while i < 16
            invariant
                *self == self_snap,
                i <= 16,
                keyed@.len() == i,
                state@.len() == 16,
                keys@.len() == 11,
                (keys@[0])@.len() == 16,
                forall|j: int| 0 <= j < i ==> keyed@[j].value == (state@[j].value
                    ^ keys@[0]@[j].value),
            decreases 16 - i,
        {
            match xor_chip.xor(layouter, &state[i], &keys[0][i]) {
                Ok(c) => keyed.push(c),
                Err(e) => {
                    return Err(AesError::Synthesis(e));
                },
            }
            i = i + 1;
        }
        proof {
            assert(values(state@) =~= plaintext@);
            assert(values(keyed@) =~= xor_seq(plaintext@, rkv[0]));
            assert(values(keyed@) == enc_after_rk(plaintext@, rkv, 0));
        }
        let mut state = keyed;

        // Ten rounds: SubBytes, ShiftRows, MixColumns (skipped in round 10),
        // AddRoundKey.
        let mut round: usize = 1;
        while round <= 10
            invariant
                *self == self_snap,
                1 <= round <= 11,
                state@.len() == 16,
                values(state@) == enc_after_rk(plaintext@, rkv, round - 1),
                rkv.len() == 11,
                keys@.len() == 11,
                forall|i: int| 0 <= i < 11 ==> (#[trigger] keys@[i])@.len() == 16,
                forall|i: int| 0 <= i < 11 ==> rkv[i] == values((#[trigger] keys@[i])@),
                self.wf(),
            decreases 11 - round,
        {
            let ghost s0 = values(state@);

            // SubBytes.
            let mut subbed: Vec<ByteCell> = Vec::new();
            let mut i: usize = 0;
            while i < 16
                invariant
                    *self == self_snap,
                    i <= 16,
                    subbed@.len() == i,
                    state@.len() == 16,
                    forall|j: int| 0 <= j < i ==> subbed@[j].value == sbox_val(state@[j].value),
                decreases 16 - i,
            {
                match sbox_chip.substitute(layouter, &state[i]) {
                    Ok(c) => subbed.push(c),
                    Err(e) => {
                        return Err(AesError::Synthesis(e));
                    },
                }
                i = i + 1;
            }
            proof {
                assert(values(subbed@) =~= sub_bytes(s0));
            }

            // ShiftRows: pure equality copies realized as cell reuse.
            let mut shifted: Vec<ByteCell> = Vec::new();
            let mut nidx: usize = 0;
            while nidx < 16
                invariant
                    *self == self_snap,
                    nidx <= 16,
                    shifted@.len() == nidx,
                    subbed@.len() == 16,
                    forall|m: int| 0 <= m < nidx ==> shifted@[m].value == values(subbed@)[4 * (((m
                        / 4) + (m % 4)) % 4) + (m % 4)],
                decreases 16 - nidx,
            {
                let src = 4 * ((nidx / 4 + nidx % 4) % 4) + nidx % 4;
                shifted.push(subbed[src].duplicate());
                nidx = nidx + 1;
            }
            proof {
                assert(values(shifted@) =~= shift_rows(values(subbed@)));
            }

            // MixColumns, skipped in the last round.
            let mixed: Vec<ByteCell> = if round == 10 {
                crate::cell::duplicate_cells(&shifted)
            } else {
                let mut mixed: Vec<ByteCell> = Vec::new();
                let mut w: usize = 0;
                while w < 4
                    invariant
                        *self == self_snap,
                        w <= 4,
                        mixed@.len() == 4 * w,
                        shifted@.len() == 16,
                        self.wf(),
                        self.current < self.xor_configs@.len(),
                        forall|m: int| 0 <= m < 4 * w ==> mixed@[m].value == mix_word_byte(
                            values(shifted@).subrange(4 * (m / 4), 4 * (m / 4) + 4),
                            m % 4,
                        ),
                    decreases 4 - w,
                {
                    let mut word: Vec<ByteCell> = Vec::new();
                    word.push(shifted[4 * w].duplicate());
                    word.push(shifted[4 * w + 1].duplicate());
                    word.push(shifted[4 * w + 2].duplicate());
                    word.push(shifted[4 * w + 3].duplicate());
                    proof {
                        assert(values(word@) =~= values(shifted@).subrange(
                            4 * w as int,
                            4 * w as int + 4,
                        ));
                    }
                    let mut m: usize = 0;
                    while m < 4
                        invariant
                            *self == self_snap,
                            m <= 4,
                            w < 4,
                            mixed@.len() == 4 * w + m,
                            word@.len() == 4,
                            shifted@.len() == 16,
                            self.wf(),
                            self.current < self.xor_configs@.len(),
                            values(word@) == values(shifted@).subrange(
                                4 * w as int,
                                4 * w as int + 4,
                            ),
                            forall|j: int| 0 <= j < 4 * w + m ==> mixed@[j].value == mix_word_byte(
                                values(shifted@).subrange(4 * (j / 4), 4 * (j / 4) + 4),
                                j % 4,
                            ),
                        decreases 4 - m,
                    {
                        let coeffs = mix_row(m);
                        let out = match self.lcon(layouter, &word, &coeffs) {
                            Ok(c) => c,
                            Err(e) => {
                                proof {
                                    assert(!(e is InvalidCoefficient));
                                }
                                return Err(e);
                            },
                        };
                        proof {
                            assert(out.value == mix_word_byte(values(word@), m as int));
                            let j = 4 * w + m;
                            assert(j / 4 == w as int && j % 4 == m as int) by (nonlinear_arith)
                                requires
                                    j == 4 * (w as int) + m && 0 <= m < 4 && 0 <= w < 4,
                            ;
                        }
                        mixed.push(out);
                        m = m + 1;
                    }
                    w = w + 1;
                }
                proof {
                    assert forall|j: int| 0 <= j < 16 implies values(mixed@)[j] == mix_columns(
                        values(shifted@),
                    )[j] by {
                        assert(mixed@[j].value == mix_word_byte(
                            values(shifted@).subrange(4 * (j / 4), 4 * (j / 4) + 4),
                            j % 4,
                        ));
                    }
                    assert(values(mixed@) =~= mix_columns(values(shifted@)));
                }
                mixed
            };

            // AddRoundKey with this round's key.
            let mut next_state: Vec<ByteCell> = Vec::new();
            let mut i: usize = 0;
            while i < 16
                invariant
                    *self == self_snap,
                    i <= 16,
                    next_state@.len() == i,
                    mixed@.len() == 16,
                    keys@.len() == 11,
                    1 <= round <= 10,
                    (keys@[round as int])@.len() == 16,
                    forall|j: int| 0 <= j < i ==> next_state@[j].value == (mixed@[j].value
                        ^ (keys@[round as int])@[j].value),
                decreases 16 - i,
            {
                match xor_chip.xor(layouter, &mixed[i], &keys[round][i]) {
                    Ok(c) => next_state.push(c),
                    Err(e) => {
                        return Err(AesError::Synthesis(e));
                    },
                }
                i = i + 1;
            }
            proof {
                assert(values(next_state@) =~= xor_seq(values(mixed@), rkv[round as int]));
                if round == 10 {
                    assert(values(mixed@) =~= values(shifted@));
                    assert(values(next_state@) == aes_round(s0, rkv[round as int], true));
                } else {
                    assert(values(next_state@) == aes_round(s0, rkv[round as int], false));
                }
                assert(values(next_state@) == enc_after_rk(plaintext@, rkv, round as int));
            }
            state = next_state;
            round = round + 1;
        }

        Ok(state)
    }

    /// Assign the linear combination of a four-byte word with the given
    /// MixColumns coefficients: coefficient 1 is an equality copy, 2 and 3
    /// go through their multiplication chips, and the four products are
    /// folded with three XOR rows. A coefficient outside {1, 2, 3} fails
    /// with `InvalidCoefficient`.
    pub fn lcon<L: Layouter<Fp>>(
        &self,
        layouter: &mut L,
        word: &Vec<ByteCell>,
        coeffs: &Vec<u8>,
    ) -> (r: Result<ByteCell, AesError>)
        requires
            self.wf(),
            word@.len() == 4,
            coeffs@.len() == 4,
        ensures
            r is Ok ==> r->Ok_0.value == (gf_mul_coeff(coeffs@[0], values(word@)[0])
                ^ gf_mul_coeff(coeffs@[1], values(word@)[1]) ^ gf_mul_coeff(
                coeffs@[2],
                values(word@)[2],
            ) ^ gf_mul_coeff(coeffs@[3], values(word@)[3])),
            r is Ok ==> forall|j: int| 0 <= j < 4 ==> valid_mix_coeff(#[trigger] coeffs@[j]),
            (exists|j: int| 0 <= j < 4 && !valid_mix_coeff(#[trigger] coeffs@[j])) ==> r is Err,
            r is Err ==> r->Err_0 is Synthesis || (r->Err_0 is InvalidCoefficient && exists|j: int|
                0 <= j < 4 && !valid_mix_coeff(coeffs@[j])),
    {
        let xor_chip = U8XorChip::construct(self.xor_configs[self.current]);
        let mul2_chip = MulBy2Chip::construct(self.mul2_configs[self.current]);
        let mul3_chip = MulBy3Chip::construct(self.mul3_configs[self.current]);
        let group = self.advices[self.current];

        let mut tmp: Vec<ByteCell> = Vec::new();
        let mut j: usize = 0;
        while j < 4
            invariant
                j <= 4,
                tmp@.len() == j,
                word@.len() == 4,
                coeffs@.len() == 4,
                forall|t: int| 0 <= t < j ==> valid_mix_coeff(#[trigger] coeffs@[t]),
                forall|t: int| 0 <= t < j ==> tmp@[t].value == gf_mul_coeff(
                    coeffs@[t],
                    values(word@)[t],
                ),
            decreases 4 - j,
        {
            let c = coeffs[j];
            if c == 1 {
                match synth_copy_row(layouter, "mul by 1 copy", group.x, &word[j].cell) {
                    Ok(cell) => tmp.push(ByteCell { cell, value: word[j].value }),
                    Err(e) => {
                        return Err(AesError::Synthesis(e));
                    },
                }
            } else if c == 2 {
                match mul2_chip.mul(layouter, &word[j]) {
                    Ok(cell) => tmp.push(cell),
                    Err(e) => {
                        return Err(AesError::Synthesis(e));
                    },
                }
            } else if c == 3 {
                match mul3_chip.mul(layouter, &word[j]) {
                    Ok(cell) => tmp.push(cell),
                    Err(e) => {
                        return Err(AesError::Synthesis(e));
                    },
                }
            } else {
                return Err(AesError::InvalidCoefficient);
            }
            j = j + 1;
        }

        let inter_1 = match xor_chip.xor(layouter, &tmp[0], &tmp[1]) {
            Ok(c) => c,
            Err(e) => {
                return Err(AesError::Synthesis(e));
            },
        };
        let inter_2 = match xor_chip.xor(layouter, &tmp[2], &tmp[3]) {
            Ok(c) => c,
            Err(e) => {
                return Err(AesError::Synthesis(e));
            },
        };
        match xor_chip.xor(layouter, &inter_1, &inter_2) {
            Ok(c) => {
                proof {
                    let a = tmp@[0].value;
                    let b = tmp@[1].value;
                    let d = tmp@[2].value;
                    let e = tmp@[3].value;
                    assert((a ^ b) ^ (d ^ e) == ((a ^ b) ^ d) ^ e) by (bit_vector);
                }
                Ok(c)
            },
            Err(e) => Err(AesError::Synthesis(e)),
        }
    }
}

/// Row `m` of the MixColumns coefficient matrix.
fn mix_row(m: usize) -> (r: Vec<u8>)
    requires
        m < 4,
    ensures
        r@.len() == 4,
        forall|j: int| 0 <= j < 4 ==> r@[j] == mix_coeff(m as int, j),
        forall|j: int| 0 <= j < 4 ==> valid_mix_coeff(r@[j]),
{
    let mut row: Vec<u8> = Vec::new();
    if m == 0 {
        row.push(2);
        row.push(3);
        row.push(1);
        row.push(1);
    } else if m == 1 {
        row.push(1);
        row.push(2);
        row.push(3);
        row.push(1);
    } else if m == 2 {
        row.push(1);
        row.push(1);
        row.push(2);
        row.push(3);
    } else {
        row.push(3);
        row.push(1);
        row.push(1);
        row.push(2);
    }
    row
}

} // verus!
