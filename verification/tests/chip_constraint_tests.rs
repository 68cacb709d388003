//! Exhaustive constraint checks at small scale: the five chips look up a
//! reduced tagged table (the XOR slice cut down to the pairs the witness
//! uses), so the mock prover can check every gate, lookup and copy
//! constraint within the test time budget. A tampered S-box row must make
//! verification fail.

use halo2_proofs::circuit::{Layouter, SimpleFloorPlanner, Value};
use halo2_proofs::dev::MockProver;
use halo2_proofs::pasta::Fp;
use halo2_proofs::plonk::{Circuit, ConstraintSystem, Error};

use halo2_aes::aes128::FixedAes128Config;
use halo2_aes::cell::ByteCell;
use halo2_aes::cipher::{encrypt_block, expand_key, gf_mul_coeff_byte, mix_coeff_byte,
    shift_rows_block, sub_bytes_block};
use halo2_aes::chips::gf_mul_chip::{MulBy2Chip, MulBy2Config, MulBy3Chip, MulBy3Config};
use halo2_aes::chips::sbox_chip::{SboxChip, SboxConfig};
use halo2_aes::chips::u8_range_check_chip::{U8RangeCheckChip, U8RangeCheckConfig};
use halo2_aes::chips::u8_xor_chip::{U8XorChip, U8XorConfig};
use halo2_aes::halo2_api::{cs_complex_selector, AdviceColumn, AdviceGroup, CellHandle,
    LookupColumn, MetaCtx, SynthError};
use halo2_aes::table::{enc_table_rows, EncTableColumns, TAG_XOR};
use halo2_aes::utils::{get_round_constant, sub_byte};

const K: u32 = 12;

fn to_halo2_error(e: SynthError) -> Error {
    e.err
}

/// Load the tagged table without its XOR slice, plus the given XOR rows.
/// With `tamper_sbox_zero`, the S-box row for input 0 maps to a wrong byte.
fn load_mini_table(
    layouter: &mut impl Layouter<Fp>,
    tables: EncTableColumns,
    xor_rows: &[(u64, u64, u64)],
    tamper_sbox_zero: bool,
) -> Result<(), Error> {
    let all = enc_table_rows();
    layouter.assign_table(
        || "mini tagged table",
        |mut table| {
            let mut off = 0usize;
            for (i, row) in all.iter().enumerate() {
                if row.tag == TAG_XOR {
                    continue;
                }
                let y = if tamper_sbox_zero && i == 256 { 0x64u64 } else { row.y };
                table.assign_cell(|| "tag", tables.tag.col, off, || {
                    Value::known(Fp::from(row.tag))
                })?;
                table.assign_cell(|| "x", tables.x.col, off, || Value::known(Fp::from(row.x)))?;
                table.assign_cell(|| "y", tables.y.col, off, || Value::known(Fp::from(y)))?;
                table.assign_cell(|| "z", tables.z.col, off, || Value::known(Fp::from(row.z)))?;
                off += 1;
            }
            for &(x, y, z) in xor_rows {
                table.assign_cell(|| "tag", tables.tag.col, off, || {
                    Value::known(Fp::from(TAG_XOR))
                })?;
                table.assign_cell(|| "x", tables.x.col, off, || Value::known(Fp::from(x)))?;
                table.assign_cell(|| "y", tables.y.col, off, || Value::known(Fp::from(y)))?;
                table.assign_cell(|| "z", tables.z.col, off, || Value::known(Fp::from(z)))?;
                off += 1;
            }
            Ok(())
        },
    )
}

#[derive(Clone)]
struct ChipConfig {
    advices: AdviceGroup,
    tables: EncTableColumns,
    range: U8RangeCheckConfig,
    xor: U8XorConfig,
    sbox: SboxConfig,
    mul2: MulBy2Config,
    mul3: MulBy3Config,
}

#[derive(Clone)]
struct MiniChipCircuit {
    tamper: bool,
}

impl MiniChipCircuit {
    fn assign_input(
        layouter: &mut impl Layouter<Fp>,
        column: AdviceColumn,
        v: u8,
    ) -> Result<ByteCell, Error> {
        let cell = layouter.assign_region(
            || "input byte",
            |mut region| {
                region.assign_advice(|| "input", column.col, 0, || {
                    Value::known(Fp::from(v as u64))
                })
            },
        )?;
        Ok(ByteCell { cell: CellHandle { cell }, value: v })
    }
}

impl Circuit<Fp> for MiniChipCircuit {
    type Config = ChipConfig;
    type FloorPlanner = SimpleFloorPlanner;

    fn configure(meta: &mut ConstraintSystem<Fp>) -> Self::Config {
        let advices = AdviceGroup {
            x: AdviceColumn { col: meta.advice_column() },
            y: AdviceColumn { col: meta.advice_column() },
            z: AdviceColumn { col: meta.advice_column() },
        };
        let tables = EncTableColumns {
            tag: LookupColumn { col: meta.lookup_table_column() },
            x: LookupColumn { col: meta.lookup_table_column() },
            y: LookupColumn { col: meta.lookup_table_column() },
            z: LookupColumn { col: meta.lookup_table_column() },
        };
        meta.enable_equality(advices.x.col);
        meta.enable_equality(advices.y.col);
        meta.enable_equality(advices.z.col);

        let mut ctx = MetaCtx { cs: meta };
        let q_range = cs_complex_selector(&mut ctx);
        let q_xor = cs_complex_selector(&mut ctx);
        let q_sbox = cs_complex_selector(&mut ctx);
        let q_mul2 = cs_complex_selector(&mut ctx);
        let q_mul3 = cs_complex_selector(&mut ctx);
        let range =
            U8RangeCheckChip::configure(&mut ctx, advices.x, q_range, tables.tag, tables.x);
        let xor = U8XorChip::configure(
            &mut ctx,
            advices.x,
            advices.y,
            advices.z,
            q_xor,
            tables.tag,
            tables.x,
            tables.y,
            tables.z,
        );
        let sbox = SboxChip::configure(
            &mut ctx,
            advices.x,
            advices.y,
            q_sbox,
            tables.tag,
            tables.x,
            tables.y,
        );
        let mul2 = MulBy2Chip::configure(
            &mut ctx,
            advices.x,
            advices.y,
            q_mul2,
            tables.tag,
            tables.x,
            tables.y,
        );
        let mul3 = MulBy3Chip::configure(
            &mut ctx,
            advices.x,
            advices.y,
            q_mul3,
            tables.tag,
            tables.x,
            tables.y,
        );

        ChipConfig { advices, tables, range, xor, sbox, mul2, mul3 }
    }

    fn synthesize(
        &self,
        config: Self::Config,
        mut layouter: impl Layouter<Fp>,
    ) -> Result<(), Error> {
        load_mini_table(&mut layouter, config.tables, &[(5, 12, 9)], self.tamper)?;

        let a = Self::assign_input(&mut layouter, config.advices.x, 5)?;
        let b = Self::assign_input(&mut layouter, config.advices.x, 12)?;
        let zero = Self::assign_input(&mut layouter, config.advices.x, 0)?;
        let m2_in = Self::assign_input(&mut layouter, config.advices.x, 0x80)?;
        let m3_in = Self::assign_input(&mut layouter, config.advices.x, 0xFF)?;

        let xor_chip = U8XorChip::construct(config.xor);
        let sbox_chip = SboxChip::construct(config.sbox);
        let mul2_chip = MulBy2Chip::construct(config.mul2);
        let mul3_chip = MulBy3Chip::construct(config.mul3);
        let range_chip = U8RangeCheckChip::construct(config.range);

        let x = xor_chip.xor(&mut layouter, &a, &b).map_err(to_halo2_error)?;
        assert_eq!(x.value, 9);
        let s = sbox_chip.substitute(&mut layouter, &zero).map_err(to_halo2_error)?;
        assert_eq!(s.value, 0x63);
        let m2 = mul2_chip.mul(&mut layouter, &m2_in).map_err(to_halo2_error)?;
        assert_eq!(m2.value, 0x1B);
        let m3 = mul3_chip.mul(&mut layouter, &m3_in).map_err(to_halo2_error)?;
        assert_eq!(m3.value, 0x1A);
        range_chip.range_check(&mut layouter, &m3_in).map_err(to_halo2_error)?;

        Ok(())
    }

    fn without_witnesses(&self) -> Self {
        self.clone()
    }
}

#[test]
fn test_chip_constraints_satisfied() {
    let circuit = MiniChipCircuit { tamper: false };
    let mock = MockProver::run(K, &circuit, vec![]).unwrap();
    mock.assert_satisfied();
}

#[test]
fn test_chip_tamper_detected() {
    // Replacing the S-box row for input 0 with a wrong output makes the
    // substitution of a zero byte fail constraint verification.
    let circuit = MiniChipCircuit { tamper: true };
    let mock = MockProver::run(K, &circuit, vec![]).unwrap();
    assert!(mock.verify().is_err());
}

/// The ordered XOR operand pairs that scheduling `key` and encrypting `pt`
/// feed to the XOR chip, as table triples `(x, y, x ⊕ y)`: enough for the
/// reduced table to support one full block.
fn xor_pairs_for(key: &[u8; 16], pt: &[u8; 16]) -> Vec<(u64, u64, u64)> {
    let mut pairs: Vec<(u64, u64, u64)> = Vec::new();
    let mut push = |pairs: &mut Vec<(u64, u64, u64)>, x: u8, y: u8| {
        pairs.push((x as u64, y as u64, (x ^ y) as u64));
    };
    let ks = expand_key(key);

    // Key schedule: round-constant word, word 0, then words 1 to 3.
    let perm = [13usize, 14, 15, 12];
    for r in 1..=10usize {
        let prev = &ks[16 * (r - 1)..16 * r];
        let rc = get_round_constant(r as u32 - 1);
        let rcw = [rc, 0, 0, 0];
        for k in 0..4 {
            let sub = sub_byte(prev[perm[k]]);
            push(&mut pairs, sub, rcw[k]);
            let rconned = sub ^ rcw[k];
            push(&mut pairs, prev[k], rconned);
        }
        for w in 1..4 {
            for k in 0..4 {
                push(&mut pairs, prev[4 * w + k], ks[16 * r + 4 * (w - 1) + k]);
            }
        }
    }

    // Encryption: initial AddRoundKey, MixColumns folds, AddRoundKey.
    let mut state: Vec<u8> = Vec::new();
    for i in 0..16 {
        push(&mut pairs, pt[i], ks[i]);
        state.push(pt[i] ^ ks[i]);
    }
    for round in 1..=10usize {
        let subbed = sub_bytes_block(&state);
        let shifted = shift_rows_block(&subbed);
        let mixed = if round == 10 {
            shifted
        } else {
            let mut mixed: Vec<u8> = Vec::new();
            for w in 0..4 {
                for m in 0..4 {
                    let t: Vec<u8> = (0..4)
                        .map(|j| gf_mul_coeff_byte(mix_coeff_byte(m, j), shifted[4 * w + j]))
                        .collect();
                    push(&mut pairs, t[0], t[1]);
                    push(&mut pairs, t[2], t[3]);
                    let t01 = t[0] ^ t[1];
                    let t23 = t[2] ^ t[3];
                    push(&mut pairs, t01, t23);
                    mixed.push(t01 ^ t23);
                }
            }
            mixed
        };
        let rk = &ks[16 * round..16 * round + 16];
        let mut next: Vec<u8> = Vec::new();
        for i in 0..16 {
            push(&mut pairs, mixed[i], rk[i]);
            next.push(mixed[i] ^ rk[i]);
        }
        state = next;
    }
    pairs
}

/// One full block at small scale: the reduced table carries exactly the XOR
/// rows the witness needs, so the mock prover can check every constraint of
/// a complete schedule-and-encrypt pass.
#[derive(Clone)]
struct MiniBlockCircuit {
    key: [u8; 16],
    plaintext: [u8; 16],
    tamper: bool,
}

impl Circuit<Fp> for MiniBlockCircuit {
    type Config = FixedAes128Config;
    type FloorPlanner = SimpleFloorPlanner;

    fn configure(meta: &mut ConstraintSystem<Fp>) -> Self::Config {
        FixedAes128Config::configure(&mut MetaCtx { cs: meta }, K, 1)
    }

    fn synthesize(
        &self,
        mut config: Self::Config,
        mut layouter: impl Layouter<Fp>,
    ) -> Result<(), Error> {
        let pairs = xor_pairs_for(&self.key, &self.plaintext);
        load_mini_table(&mut layouter, config.tables, &pairs, self.tamper)?;

        config
            .schedule_key(&mut layouter, self.key)
            .map_err(|_| Error::Synthesis)?;
        let out = config
            .encrypt(&mut layouter, self.plaintext)
            .map_err(|_| Error::Synthesis)?;

        let got: Vec<u8> = out.iter().map(|c| c.value).collect();
        let expected = encrypt_block(&self.key, &self.plaintext);
        assert_eq!(got, expected);
        Ok(())
    }

    fn without_witnesses(&self) -> Self {
        self.clone()
    }
}

#[test]
fn test_block_constraints_satisfied() {
    // A full block under the FIPS-197 example key: every gate, lookup and
    // copy constraint of the schedule and the ten rounds holds.
    let key = [
        0x00u8, 0x01, 0x02, 0x03, 0x04, 0x05, 0x06, 0x07, 0x08, 0x09, 0x0A, 0x0B, 0x0C, 0x0D,
        0x0E, 0x0F,
    ];
    let plaintext = [
        0x00u8, 0x11, 0x22, 0x33, 0x44, 0x55, 0x66, 0x77, 0x88, 0x99, 0xAA, 0xBB, 0xCC, 0xDD,
        0xEE, 0xFF,
    ];
    let circuit = MiniBlockCircuit { key, plaintext, tamper: false };
    let mock = MockProver::run(K, &circuit, vec![]).unwrap();
    mock.assert_satisfied();
}

#[test]
fn test_tamper_detection() {
    // Replacing the S-box row for input 0 with an incorrect output causes a
    // block that encrypts zero bytes to fail constraint verification.
    let circuit = MiniBlockCircuit { key: [0u8; 16], plaintext: [0u8; 16], tamper: true };
    let mock = MockProver::run(K, &circuit, vec![]).unwrap();
    assert!(mock.verify().is_err());
}
