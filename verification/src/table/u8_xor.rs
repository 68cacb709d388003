//! A stand-alone three-column lookup table holding `x ⊕ y = z` for every
//! pair of bytes, usable for plain XOR checks without the tag column.

use vstd::prelude::*;

use halo2_proofs::circuit::Layouter;
use halo2_proofs::pasta::Fp;

use crate::halo2_api::{cs_lookup_table_column, synth_value_column, LookupColumn, MetaCtx,
    SynthError};

verus! {

/// Number of rows of the XOR table: one per ordered pair of bytes.
pub const XOR_TABLE_ROWS: usize = 65536;

/// Row `n` of the XOR table as `(x, y, z)`: the pair `(a, b)` with
/// `a = n / 256` and `b = n % 256`, and their XOR.
pub open spec fn xor_table_row(n: int) -> (u64, u64, u64) {
    ((n / 256) as u64, (n % 256) as u64, (((n / 256) as u8) ^ ((n % 256) as u8)) as u64)
}

/// Compute the three columns of the XOR table: exactly 65,536 aligned rows,
/// row `n` holding [`xor_table_row`]`(n)`, so every ordered pair of bytes
/// appears once, the pairs with 255 included.
pub fn xor_table_columns() -> (r: (Vec<u64>, Vec<u64>, Vec<u64>))
    ensures
        r.0@.len() == XOR_TABLE_ROWS,
        r.1@.len() == XOR_TABLE_ROWS,
        r.2@.len() == XOR_TABLE_ROWS,
        forall|n: int| 0 <= n < XOR_TABLE_ROWS ==> #[trigger] r.0@[n] == xor_table_row(n).0,
        forall|n: int| 0 <= n < XOR_TABLE_ROWS ==> #[trigger] r.1@[n] == xor_table_row(n).1,
        forall|n: int| 0 <= n < XOR_TABLE_ROWS ==> #[trigger] r.2@[n] == xor_table_row(n).2,
{
    let mut xs: Vec<u64> = Vec::new();
    let mut ys: Vec<u64> = Vec::new();
    let mut zs: Vec<u64> = Vec::new();
    let mut a: u64 = 0;
    while a < 256
        invariant
            a <= 256,
            xs@.len() == 256 * a,
            ys@.len() == xs@.len(),
            zs@.len() == xs@.len(),
            forall|n: int| 0 <= n < 256 * a ==> #[trigger] xs@[n] == xor_table_row(n).0,
            forall|n: int| 0 <= n < 256 * a ==> #[trigger] ys@[n] == xor_table_row(n).1,
            forall|n: int| 0 <= n < 256 * a ==> #[trigger] zs@[n] == xor_table_row(n).2,
        decreases 256 - a,
    {
        let mut b: u64 = 0;
        while b < 256
            invariant
                a < 256,
                b <= 256,
                xs@.len() == 256 * a + b,
                ys@.len() == xs@.len(),
                zs@.len() == xs@.len(),
                forall|n: int| 0 <= n < 256 * a + b ==> #[trigger] xs@[n] == xor_table_row(n).0,
                forall|n: int| 0 <= n < 256 * a + b ==> #[trigger] ys@[n] == xor_table_row(n).1,
                forall|n: int| 0 <= n < 256 * a + b ==> #[trigger] zs@[n] == xor_table_row(n).2,
            decreases 256 - b,
        {
            xs.push(a);
            ys.push(b);
            zs.push(((a as u8) ^ (b as u8)) as u64);
            proof {
                let n = 256 * (a as int) + b;
                assert(n / 256 == a as int && n % 256 == b as int) by (nonlinear_arith)
                    requires
                        n == 256 * (a as int) + b && 0 <= b < 256 && 0 <= a,
                ;
            }
            b = b + 1;
        }
        a = a + 1;
    }
    (xs, ys, zs)
}

/// Configuration of the stand-alone byte XOR table.
#[derive(Clone, Copy)]
pub struct U8XorTableConfig {
    /// The left-operand column.
    pub x: LookupColumn,
    /// The right-operand column.
    pub y: LookupColumn,
    /// The result column.
    pub z: LookupColumn,
}

impl U8XorTableConfig {
    /// Allocate the three table columns.
    pub fn configure(meta: &mut MetaCtx<'_>) -> Self {
        let x = cs_lookup_table_column(meta);
        let y = cs_lookup_table_column(meta);
        let z = cs_lookup_table_column(meta);
        U8XorTableConfig { x, y, z }
    }

    /// Load the 65,536 rows computed by [`xor_table_columns`]. The three
    /// columns have equal length, so the rows stay aligned.
    pub fn load<L: Layouter<Fp>>(&self, layouter: &mut L) -> (r: Result<(), SynthError>) {
        let (xs, ys, zs) = xor_table_columns();
        match synth_value_column(layouter, "u8 xor table x", self.x, &xs) {
            Ok(()) => (),
            Err(e) => {
                return Err(e);
            },
        }
        match synth_value_column(layouter, "u8 xor table y", self.y, &ys) {
            Ok(()) => (),
            Err(e) => {
                return Err(e);
            },
        }
        synth_value_column(layouter, "u8 xor table z", self.z, &zs)
    }
}

} // verus!
