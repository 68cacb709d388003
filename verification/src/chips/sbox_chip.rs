//! The S-box chip: one lookup row per substitution against the S-box slice
//! of the shared tagged table.

use vstd::prelude::*;

use halo2_proofs::circuit::Layouter;
use halo2_proofs::pasta::Fp;

use crate::cell::ByteCell;
use crate::halo2_api::{cs_lookup_tagged_2, synth_map_row, AdviceColumn, LookupSelector,
    LookupColumn, MetaCtx, SynthError};
use crate::model::sbox_val;
use crate::table::TAG_SBOX;
use crate::utils::sub_byte;

verus! {

/// Columns and selector of the S-box chip.
#[derive(Clone, Copy)]
pub struct SboxConfig {
    /// Column of the input byte.
    pub x: AdviceColumn,
    /// Column of the substituted byte.
    pub y: AdviceColumn,
    /// The chip's lookup selector.
    pub q: LookupSelector,
}

/// The S-box chip.
#[derive(Clone, Copy)]
pub struct SboxChip {
    /// The chip's configuration.
    pub config: SboxConfig,
}

impl SboxChip {
    /// Build the chip from its configuration.
    pub fn construct(config: SboxConfig) -> (r: Self)
        ensures
            r.config == config,
    {
        SboxChip { config }
    }

    /// Declare the lookup argument `(q·TAG_SBOX, q·x, q·y)` against the
    /// tagged table, so every enabled row must satisfy `y = Sbox[x]`.
    pub fn configure(
        meta: &mut MetaCtx<'_>,
        x_col: AdviceColumn,
        y_col: AdviceColumn,
        selector: LookupSelector,
        tag_tab: LookupColumn,
        x_tab: LookupColumn,
        y_tab: LookupColumn,
    ) -> (r: SboxConfig)
        ensures
            r.x == x_col && r.y == y_col && r.q == selector,
    {
        cs_lookup_tagged_2(meta, selector, TAG_SBOX, x_col, y_col, tag_tab, x_tab, y_tab);
        SboxConfig { x: x_col, y: y_col, q: selector }
    }

    /// Assign one substitution row: copy `x` in, assign `Sbox[x]` as the
    /// output cell and enable the lookup selector.
    pub fn substitute<L: Layouter<Fp>>(&self, layouter: &mut L, x: &ByteCell) -> (r: Result<
        ByteCell,
        SynthError,
    >)
        ensures
            r is Ok ==> r->Ok_0.value == sbox_val(x.value),
    {
        let y = sub_byte(x.value);
        match synth_map_row(
            layouter,
            "sbox",
            self.config.q,
            self.config.x,
            self.config.y,
            &x.cell,
            y,
        ) {
            Ok(cell) => Ok(ByteCell { cell, value: y }),
            Err(e) => Err(e),
        }
    }
}

} // verus!
