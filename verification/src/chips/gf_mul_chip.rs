//! The GF(2^8) multiplication chips: one lookup row per operation against
//! the multiply-by-2 or multiply-by-3 slice of the shared tagged table.

use vstd::prelude::*;

use halo2_proofs::circuit::Layouter;
use halo2_proofs::pasta::Fp;

use crate::cell::ByteCell;
use crate::halo2_api::{cs_lookup_tagged_2, synth_map_row, AdviceColumn, LookupSelector,
    LookupColumn, MetaCtx, SynthError};
use crate::model::{gmul3, xtime};
use crate::table::{TAG_GF_MUL_2, TAG_GF_MUL_3};
use crate::utils::{mul_by_2, mul_by_3};

verus! {

/// Columns and selector of the multiply-by-2 chip.
#[derive(Clone, Copy)]
pub struct MulBy2Config {
    /// Column of the input byte.
    pub x: AdviceColumn,
    /// Column of the product byte.
    pub y: AdviceColumn,
    /// The chip's lookup selector.
    pub q: LookupSelector,
}

/// The multiply-by-2 chip.
#[derive(Clone, Copy)]
pub struct MulBy2Chip {
    /// The chip's configuration.
    pub config: MulBy2Config,
}

impl MulBy2Chip {
    /// Build the chip from its configuration.
    pub fn construct(config: MulBy2Config) -> (r: Self)
        ensures
            r.config == config,
    {
        MulBy2Chip { config }
    }

    /// Declare the lookup argument `(q·TAG_GF_MUL_2, q·x, q·y)` against the
    /// tagged table, so every enabled row must satisfy `y = 2·x` in GF(2^8).
    pub fn configure(
        meta: &mut MetaCtx<'_>,
        x_col: AdviceColumn,
        y_col: AdviceColumn,
        selector: LookupSelector,
        tag_tab: LookupColumn,
        x_tab: LookupColumn,
        y_tab: LookupColumn,
    ) -> (r: MulBy2Config)
        ensures
            r.x == x_col && r.y == y_col && r.q == selector,
    {
        cs_lookup_tagged_2(meta, selector, TAG_GF_MUL_2, x_col, y_col, tag_tab, x_tab, y_tab);
        MulBy2Config { x: x_col, y: y_col, q: selector }
    }

    /// Assign one multiplication row: copy `x` in, assign `2·x` as the
    /// output cell and enable the lookup selector.
    pub fn mul<L: Layouter<Fp>>(&self, layouter: &mut L, x: &ByteCell) -> (r: Result<
        ByteCell,
        SynthError,
    >)
        ensures
            r is Ok ==> r->Ok_0.value == xtime(x.value),
    {
        let y = mul_by_2(x.value);
        match synth_map_row(
            layouter,
            "gf mul by 2",
            self.config.q,
            self.config.x,
            self.config.y,
            &x.cell,
            y,
        ) {
            Ok(cell) => Ok(ByteCell { cell, value: y }),
            Err(e) => Err(e),
        }
    }
}

/// Columns and selector of the multiply-by-3 chip.
#[derive(Clone, Copy)]
pub struct MulBy3Config {
    /// Column of the input byte.
    pub x: AdviceColumn,
    /// Column of the product byte.
    pub y: AdviceColumn,
    /// The chip's lookup selector.
    pub q: LookupSelector,
}

/// The multiply-by-3 chip.
#[derive(Clone, Copy)]
pub struct MulBy3Chip {
    /// The chip's configuration.
    pub config: MulBy3Config,
}

impl MulBy3Chip {
    /// Build the chip from its configuration.
    pub fn construct(config: MulBy3Config) -> (r: Self)
        ensures
            r.config == config,
    {
        MulBy3Chip { config }
    }

    /// Declare the lookup argument `(q·TAG_GF_MUL_3, q·x, q·y)` against the
    /// tagged table, so every enabled row must satisfy `y = 3·x` in GF(2^8).
    pub fn configure(
        meta: &mut MetaCtx<'_>,
        x_col: AdviceColumn,
        y_col: AdviceColumn,
        selector: LookupSelector,
        tag_tab: LookupColumn,
        x_tab: LookupColumn,
        y_tab: LookupColumn,
    ) -> (r: MulBy3Config)
        ensures
            r.x == x_col && r.y == y_col && r.q == selector,
    {
        cs_lookup_tagged_2(meta, selector, TAG_GF_MUL_3, x_col, y_col, tag_tab, x_tab, y_tab);
        MulBy3Config { x: x_col, y: y_col, q: selector }
    }

    /// Assign one multiplication row: copy `x` in, assign `3·x` as the
    /// output cell and enable the lookup selector.
    pub fn mul<L: Layouter<Fp>>(&self, layouter: &mut L, x: &ByteCell) -> (r: Result<
        ByteCell,
        SynthError,
    >)
        ensures
            r is Ok ==> r->Ok_0.value == gmul3(x.value),
    {
        let y = mul_by_3(x.value);
        match synth_map_row(
            layouter,
            "gf mul by 3",
            self.config.q,
            self.config.x,
            self.config.y,
            &x.cell,
            y,
        ) {
            Ok(cell) => Ok(ByteCell { cell, value: y }),
            Err(e) => Err(e),
        }
    }
}

} // verus!
