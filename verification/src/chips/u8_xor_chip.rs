//! The XOR chip: one lookup row per operation against the XOR slice of the
//! shared tagged table.

use vstd::prelude::*;

use halo2_proofs::circuit::Layouter;
use halo2_proofs::pasta::Fp;

use crate::cell::ByteCell;
use crate::halo2_api::{cs_lookup_tagged_3, synth_xor_row, AdviceColumn, LookupSelector,
    LookupColumn, MetaCtx, SynthError};
use crate::table::TAG_XOR;
use crate::utils::xor_bytes;

verus! {

/// Columns and selector of the XOR chip.
#[derive(Clone, Copy)]
pub struct U8XorConfig {
    /// Column of the left operand.
    pub x: AdviceColumn,
    /// Column of the right operand.
    pub y: AdviceColumn,
    /// Column of the result.
    pub z: AdviceColumn,
    /// The chip's lookup selector.
    pub q: LookupSelector,
}

/// The XOR chip.
#[derive(Clone, Copy)]
pub struct U8XorChip {
    /// The chip's configuration.
    pub config: U8XorConfig,
}

impl U8XorChip {
    /// Build the chip from its configuration.
    pub fn construct(config: U8XorConfig) -> (r: Self)
        ensures
            r.config == config,
    {
        U8XorChip { config }
    }

    /// Declare the lookup argument `(q·TAG_XOR, q·x, q·y, q·z)` against the
    /// tagged table, so every enabled row must satisfy `z = x ⊕ y` with all
    /// three values bytes.
    pub fn configure(
        meta: &mut MetaCtx<'_>,
        x_col: AdviceColumn,
        y_col: AdviceColumn,
        z_col: AdviceColumn,
        selector: LookupSelector,
        tag_tab: LookupColumn,
        x_tab: LookupColumn,
        y_tab: LookupColumn,
        z_tab: LookupColumn,
    ) -> (r: U8XorConfig)
        ensures
            r.x == x_col && r.y == y_col && r.z == z_col && r.q == selector,
    {
        cs_lookup_tagged_3(meta, selector, TAG_XOR, x_col, y_col, z_col, tag_tab, x_tab, y_tab,
            z_tab);
        U8XorConfig { x: x_col, y: y_col, z: z_col, q: selector }
    }

    /// Assign one XOR row: copy `x` and `y` in, assign `x ⊕ y` as the output
    /// cell and enable the lookup selector.
    pub fn xor<L: Layouter<Fp>>(&self, layouter: &mut L, x: &ByteCell, y: &ByteCell) -> (r: Result<
        ByteCell,
        SynthError,
    >)
        ensures
            r is Ok ==> r->Ok_0.value == (x.value ^ y.value),
    {
        let z = xor_bytes(x.value, y.value);
        match synth_xor_row(
            layouter,
            "u8 xor",
            self.config.q,
            self.config.x,
            self.config.y,
            self.config.z,
            &x.cell,
            &y.cell,
            z,
        ) {
            Ok(cell) => Ok(ByteCell { cell, value: z }),
            Err(e) => Err(e),
        }
    }
}

} // verus!
