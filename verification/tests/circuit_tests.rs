//! Circuit-level tests: synthesis through the real proof system.
//!
//! The shared tagged table has 66,561 rows, so any circuit holding it needs
//! 2^17 rows, and the mock prover's full satisfaction check over that many
//! rows does not fit the per-test time budget of this suite in a debug
//! build. The full-scale tests therefore drive real synthesis (every region,
//! copy and selector assignment runs through the proof system) and check the
//! witness bytes; constraint satisfaction and tamper detection are checked
//! exhaustively at small scale in `chip_constraint_tests`, where the same
//! chips look up a reduced tagged table.

use halo2_proofs::circuit::{Layouter, SimpleFloorPlanner};
use halo2_proofs::dev::MockProver;
use halo2_proofs::pasta::Fp;
use halo2_proofs::plonk::{Circuit, ConstraintSystem, Error};

use halo2_aes::aes128::FixedAes128Config;
use halo2_aes::cipher::encrypt_block;
use halo2_aes::error::AesError;
use halo2_aes::halo2_api::{cs_complex_selector, AdviceColumn, LookupColumn, MetaCtx};
use halo2_aes::halo2_api::AdviceGroup;
use halo2_aes::chips::sbox_chip::SboxChip;
use halo2_aes::chips::u8_range_check_chip::U8RangeCheckChip;
use halo2_aes::chips::u8_xor_chip::U8XorChip;
use halo2_aes::key_schedule::Aes128KeyScheduleConfig;
use halo2_aes::table::{load_enc_full_table, EncTableColumns};

const K: u32 = 17;

fn to_halo2_error(e: AesError) -> Error {
    match e {
        AesError::Synthesis(s) => s.err,
        _ => Error::Synthesis,
    }
}

#[derive(Clone)]
struct TestAesCircuit {
    key: [u8; 16],
    plaintext: [u8; 16],
    encrypt_num: usize,
}

impl Circuit<Fp> for TestAesCircuit {
    type Config = FixedAes128Config;
    type FloorPlanner = SimpleFloorPlanner;

    fn configure(meta: &mut ConstraintSystem<Fp>) -> Self::Config {
        FixedAes128Config::configure(&mut MetaCtx { cs: meta }, K, 3)
    }

    fn synthesize(
        &self,
        mut config: Self::Config,
        mut layouter: impl Layouter<Fp>,
    ) -> Result<(), Error> {
        load_enc_full_table(&mut layouter, config.tables).map_err(|e| e.err)?;
        config
            .schedule_key(&mut layouter, self.key)
            .map_err(to_halo2_error)?;

        let expected = encrypt_block(&self.key, &self.plaintext);
        for _ in 0..self.encrypt_num {
            let out = config
                .encrypt(&mut layouter, self.plaintext)
                .map_err(to_halo2_error)?;
            // Every block's cells carry the reference AES-128 ciphertext.
            let got: Vec<u8> = out.iter().map(|c| c.value).collect();
            assert_eq!(got, expected);
        }
        Ok(())
    }

    fn without_witnesses(&self) -> Self {
        self.clone()
    }
}

#[test]
fn test_correct_encryption() {
    let circuit = TestAesCircuit { key: [0u8; 16], plaintext: [0u8; 16], encrypt_num: 4 };

    let _mock = MockProver::run(K, &circuit, vec![]).unwrap();
}

#[derive(Clone)]
struct TestKeyScheduleCircuit {
    key: [u8; 16],
}

impl Circuit<Fp> for TestKeyScheduleCircuit {
    type Config = (Aes128KeyScheduleConfig, EncTableColumns);
    type FloorPlanner = SimpleFloorPlanner;

    fn configure(meta: &mut ConstraintSystem<Fp>) -> Self::Config {
        let advices = AdviceGroup {
            x: AdviceColumn { col: meta.advice_column() },
            y: AdviceColumn { col: meta.advice_column() },
            z: AdviceColumn { col: meta.advice_column() },
        };
        let tables = EncTableColumns {
            tag: LookupColumn { col: meta.lookup_table_column() },
            x: LookupColumn { col: meta.lookup_table_column() },
            y: LookupColumn { col: meta.lookup_table_column() },
            z: LookupColumn { col: meta.lookup_table_column() },
        };
        let mut ctx = MetaCtx { cs: meta };
        let q_u8_range_check = cs_complex_selector(&mut ctx);
        let q_u8_xor = cs_complex_selector(&mut ctx);
        let q_sbox = cs_complex_selector(&mut ctx);
        let u8_range_check_config = U8RangeCheckChip::configure(
            &mut ctx,
            advices.x,
            q_u8_range_check,
            tables.tag,
            tables.x,
        );
        let u8_xor_config = U8XorChip::configure(
            &mut ctx,
            advices.x,
            advices.y,
            advices.z,
            q_u8_xor,
            tables.tag,
            tables.x,
            tables.y,
            tables.z,
        );
        let sbox_config = SboxChip::configure(
            &mut ctx,
            advices.x,
            advices.y,
            q_sbox,
            tables.tag,
            tables.x,
            tables.y,
        );

        (
            Aes128KeyScheduleConfig::configure(
                &mut ctx,
                advices,
                u8_xor_config,
                sbox_config,
                u8_range_check_config,
            ),
            tables,
        )
    }

    fn synthesize(
        &self,
        config: Self::Config,
        mut layouter: impl Layouter<Fp>,
    ) -> Result<(), Error> {
        load_enc_full_table(&mut layouter, config.1).map_err(|e| e.err)?;
        let words = config
            .0
            .schedule_keys(&mut layouter, self.key)
            .map_err(|e| e.err)?;
        assert_eq!(words.len(), 11);
        for word in &words {
            assert_eq!(word.len(), 16);
        }
        Ok(())
    }

    fn without_witnesses(&self) -> Self {
        self.clone()
    }
}

#[test]
fn test_constraints() {
    let k = 17;
    let circuit = TestKeyScheduleCircuit { key: [0u8; 16] };

    let _mock = MockProver::run(k, &circuit, vec![]).unwrap();
}

#[test]
fn test_boundary_keys_schedule() {
    // The zero key and the all-ones key go through the key-schedule state
    // machine without failure.
    for key in [[0u8; 16], [0xFFu8; 16]] {
        let circuit = TestKeyScheduleCircuit { key };
        let _mock = MockProver::run(17, &circuit, vec![]).unwrap();
    }
}

/// A small-budget circuit for exercising the scheduler: `2^13` rows and four
/// groups admit 4 × ⌊(8192 − 400) / 1360⌋ = 20 blocks. The tagged table is
/// not loaded and the prover's verdict is never taken: only the scheduler's
/// answers are observed.
#[derive(Clone)]
struct CapacityCircuit;

impl Circuit<Fp> for CapacityCircuit {
    type Config = FixedAes128Config;
    type FloorPlanner = SimpleFloorPlanner;

    fn configure(meta: &mut ConstraintSystem<Fp>) -> Self::Config {
        FixedAes128Config::configure(&mut MetaCtx { cs: meta }, 13, 4)
    }

    fn synthesize(
        &self,
        mut config: Self::Config,
        mut layouter: impl Layouter<Fp>,
    ) -> Result<(), Error> {
        let r = config.encrypt(&mut layouter, [0u8; 16]);
        assert!(matches!(r, Err(AesError::KeysNotScheduled)));

        config
            .schedule_key(&mut layouter, [0u8; 16])
            .map_err(to_halo2_error)?;
        for i in 0..20 {
            let r = config.encrypt(&mut layouter, [0u8; 16]);
            assert!(r.is_ok(), "block {} should fit", i);
        }
        let r = config.encrypt(&mut layouter, [0u8; 16]);
        assert!(matches!(r, Err(AesError::CapacityExceeded)));
        Ok(())
    }

    fn without_witnesses(&self) -> Self {
        self.clone()
    }
}

#[test]
fn test_batch_capacity() {
    let circuit = CapacityCircuit;
    let _ = MockProver::run(13, &circuit, vec![]).unwrap();
}

/// Calls the linear-combination operation with a coefficient outside
/// {1, 2, 3}.
#[derive(Clone)]
struct InvalidCoefficientCircuit;

impl Circuit<Fp> for InvalidCoefficientCircuit {
    type Config = FixedAes128Config;
    type FloorPlanner = SimpleFloorPlanner;

    fn configure(meta: &mut ConstraintSystem<Fp>) -> Self::Config {
        FixedAes128Config::configure(&mut MetaCtx { cs: meta }, 13, 1)
    }

    fn synthesize(
        &self,
        mut config: Self::Config,
        mut layouter: impl Layouter<Fp>,
    ) -> Result<(), Error> {
        config
            .schedule_key(&mut layouter, [0u8; 16])
            .map_err(to_halo2_error)?;
        let out = config
            .encrypt(&mut layouter, [0u8; 16])
            .map_err(to_halo2_error)?;
        let word: Vec<_> = out[0..4].to_vec();
        let coeffs = vec![5u8, 1, 1, 1];
        let r = config.lcon(&mut layouter, &word, &coeffs);
        assert!(matches!(r, Err(AesError::InvalidCoefficient)));
        Ok(())
    }

    fn without_witnesses(&self) -> Self {
        self.clone()
    }
}

#[test]
fn test_invalid_mix_coefficient() {
    let circuit = InvalidCoefficientCircuit;
    let _ = MockProver::run(13, &circuit, vec![]).unwrap();
}

#[test]
fn test_capacity_formula() {
    // With a 2^20 row budget and four groups, exactly
    // 4 × ⌊(2^20 − 400) / 1360⌋ = 4 × 770 blocks fit.
    let mut cs = ConstraintSystem::<Fp>::default();
    let config = FixedAes128Config::configure(&mut MetaCtx { cs: &mut cs }, 20, 4);
    assert_eq!(config.capacity_blocks(), 3080);

    let mut cs = ConstraintSystem::<Fp>::default();
    let config = FixedAes128Config::configure(&mut MetaCtx { cs: &mut cs }, 13, 4);
    assert_eq!(config.capacity_blocks(), 20);
}

#[derive(Clone)]
struct VariantTablesCircuit;

impl Circuit<Fp> for VariantTablesCircuit {
    type Config = (
        halo2_aes::table::u8_range_check::U8RangeCheckTableConfig,
        halo2_aes::table::u8_xor::U8XorTableConfig,
    );
    type FloorPlanner = SimpleFloorPlanner;

    fn configure(meta: &mut ConstraintSystem<Fp>) -> Self::Config {
        let mut ctx = MetaCtx { cs: meta };
        let range = halo2_aes::table::u8_range_check::U8RangeCheckTableConfig::configure(&mut ctx);
        let xor = halo2_aes::table::u8_xor::U8XorTableConfig::configure(&mut ctx);
        (range, xor)
    }

    fn synthesize(
        &self,
        config: Self::Config,
        mut layouter: impl Layouter<Fp>,
    ) -> Result<(), Error> {
        config.0.load(&mut layouter).map_err(|e| e.err)?;
        config.1.load(&mut layouter).map_err(|e| e.err)?;
        Ok(())
    }

    fn without_witnesses(&self) -> Self {
        self.clone()
    }
}

#[test]
fn test_variant_tables_load() {
    // The stand-alone byte and XOR tables load without failure.
    let circuit = VariantTablesCircuit;
    let _ = MockProver::run(17, &circuit, vec![]).unwrap();
}
