//! The byte range-check chip: one lookup row per check against the U8
//! membership slice of the shared tagged table.

use vstd::prelude::*;

use halo2_proofs::circuit::Layouter;
use halo2_proofs::pasta::Fp;

use crate::cell::ByteCell;
use crate::halo2_api::{cs_lookup_tagged_1, synth_check_row, AdviceColumn, LookupSelector,
    LookupColumn, MetaCtx, SynthError};
use crate::table::TAG_U8;

verus! {

/// Column and selector of the range-check chip.
#[derive(Clone, Copy)]
pub struct U8RangeCheckConfig {
    /// Column of the checked byte.
    pub x: AdviceColumn,
    /// The chip's lookup selector.
    pub q: LookupSelector,
}

/// The byte range-check chip.
#[derive(Clone, Copy)]
pub struct U8RangeCheckChip {
    /// The chip's configuration.
    pub config: U8RangeCheckConfig,
}

impl U8RangeCheckChip {
    /// Build the chip from its configuration.
    pub fn construct(config: U8RangeCheckConfig) -> (r: Self)
        ensures
            r.config == config,
    {
        U8RangeCheckChip { config }
    }

    /// Declare the lookup argument `(q·TAG_U8, q·x)` against the tagged
    /// table, so every enabled row must hold a byte value.
    pub fn configure(
        meta: &mut MetaCtx<'_>,
        x_col: AdviceColumn,
        selector: LookupSelector,
        tag_tab: LookupColumn,
        value_tab: LookupColumn,
    ) -> (r: U8RangeCheckConfig)
        ensures
            r.x == x_col && r.q == selector,
    {
        cs_lookup_tagged_1(meta, selector, TAG_U8, x_col, tag_tab, value_tab);
        U8RangeCheckConfig { x: x_col, q: selector }
    }

    /// Assign one range-check row: copy `x` in and enable the lookup
    /// selector. The cell's byte value is untouched.
    pub fn range_check<L: Layouter<Fp>>(&self, layouter: &mut L, x: &ByteCell) -> (r: Result<
        (),
        SynthError,
    >) {
        synth_check_row(layouter, "u8 range check", self.config.q, self.config.x, &x.cell)
    }
}

} // verus!
