//! A stand-alone single-column lookup table holding the values 0..=255,
//! usable for plain byte range checks.

use vstd::prelude::*;

use halo2_proofs::circuit::Layouter;
use halo2_proofs::pasta::Fp;

use crate::halo2_api::{cs_lookup_table_column, synth_value_column, LookupColumn, MetaCtx,
    SynthError};

verus! {

/// Compute the contents of the byte range table: exactly the 256 values
/// 0..=255, value `i` at row `i`.
pub fn u8_table_values() -> (r: Vec<u64>)
    ensures
        r@.len() == 256,
        forall|i: int| 0 <= i < 256 ==> #[trigger] r@[i] == i,
{
    let mut vals: Vec<u64> = Vec::new();
    let mut i: u64 = 0;
    while i < 256
        invariant
            i <= 256,
            vals@.len() == i,
            forall|k: int| 0 <= k < i ==> #[trigger] vals@[k] == k,
        decreases 256 - i,
    {
        vals.push(i);
        i = i + 1;
    }
    vals
}

/// Configuration of the stand-alone U8 range table.
#[derive(Clone, Copy)]
pub struct U8RangeCheckTableConfig {
    /// The table column holding 0..=255.
    pub value: LookupColumn,
}

impl U8RangeCheckTableConfig {
    /// Allocate the table column.
    pub fn configure(meta: &mut MetaCtx<'_>) -> Self {
        U8RangeCheckTableConfig { value: cs_lookup_table_column(meta) }
    }

    /// Load the byte values into the table column: the rows written are
    /// exactly those of [`u8_table_values`].
    pub fn load<L: Layouter<Fp>>(&self, layouter: &mut L) -> (r: Result<(), SynthError>) {
        let vals = u8_table_values();
        synth_value_column(layouter, "u8 range table", self.value, &vals)
    }
}

} // verus!
