//! Trusted boundary to the `halo2_proofs` crate.
//!
//! Every call into the proof system goes through this module and nothing
//! else in the crate is `external_body`. The handle structs below hold
//! `halo2_proofs` values opaquely: the library never reads a field element
//! or a cell back out of them (their generic parameters carry trait bounds
//! of `halo2_proofs`, so the types themselves cannot be declared to the
//! verifier). Witness byte values are carried beside the assigned cells as
//! plain `u8` values by the rest of the crate, so all byte-level arithmetic
//! is verified, while column allocation, region assignment and constraint
//! declaration are delegated to `halo2_proofs` through the wrappers here.
//!
//! Each `assign_region` wrapper opens one region and hands it, wrapped in a
//! [`RegionCtx`], to a verified row routine; the closures below contain no
//! logic of their own.

use vstd::prelude::*;

use halo2_proofs::circuit::{AssignedCell, Layouter, Region, Table, Value};
use halo2_proofs::pasta::Fp;
use halo2_proofs::plonk::{
    Advice, Column, ConstraintSystem, Error, Fixed, Selector, TableColumn,
};
use halo2_proofs::poly::Rotation;

verus! {

#[verifier::external_type_specification]
#[verifier::external_body]
pub struct ExFp(Fp);

/// A mutable borrow of the constraint system during the configure phase.
/// The field is public so that an embedder (whose `Circuit::configure` owns
/// the real `ConstraintSystem`) can build one with a struct literal.
#[verifier::external_body]
pub struct MetaCtx<'a> {
    pub cs: &'a mut ConstraintSystem<Fp>,
}

/// Handle to one advice (witness) column.
#[verifier::external_body]
pub struct AdviceColumn {
    /// The underlying advice column.
    pub col: Column<Advice>,
}

impl Clone for AdviceColumn {
    #[verifier::external_body]
    fn clone(&self) -> (r: Self) {
        AdviceColumn { col: self.col }
    }
}

impl Copy for AdviceColumn {

}

/// Handle to one fixed (circuit-constant) column.
#[verifier::external_body]
pub struct FixedColumn {
    /// The underlying fixed column.
    pub col: Column<Fixed>,
}

impl Clone for FixedColumn {
    #[verifier::external_body]
    fn clone(&self) -> (r: Self) {
        FixedColumn { col: self.col }
    }
}

impl Copy for FixedColumn {

}

/// Handle to one lookup-table column.
#[verifier::external_body]
pub struct LookupColumn {
    /// The underlying lookup-table column.
    pub col: TableColumn,
}

impl Clone for LookupColumn {
    #[verifier::external_body]
    fn clone(&self) -> (r: Self) {
        LookupColumn { col: self.col }
    }
}

impl Copy for LookupColumn {

}

/// Handle to one simple selector, usable in polynomial gates but never in
/// lookup arguments (`ConstraintSystem::lookup` panics on an input
/// expression holding a simple selector). The field is private and the only
/// constructor is [`cs_selector`], so a value of this type is always simple.
#[verifier::external_body]
pub struct GateSelector {
    sel: Selector,
}

impl Clone for GateSelector {
    #[verifier::external_body]
    fn clone(&self) -> (r: Self) {
        GateSelector { sel: self.sel }
    }
}

impl Copy for GateSelector {

}

/// Handle to one complex selector, the kind that may appear in lookup
/// arguments. The field is private and the only constructor is
/// [`cs_complex_selector`], so a value of this type is never a simple
/// selector, which keeps the lookup wrappers below away from the panic.
#[verifier::external_body]
pub struct LookupSelector {
    sel: Selector,
}

impl Clone for LookupSelector {
    #[verifier::external_body]
    fn clone(&self) -> (r: Self) {
        LookupSelector { sel: self.sel }
    }
}

impl Copy for LookupSelector {

}

/// Handle to one assigned advice cell.
#[verifier::external_body]
pub struct CellHandle {
    /// The underlying assigned cell.
    pub cell: AssignedCell<Fp, Fp>,
}

impl Clone for CellHandle {
    /// Relies on `AssignedCell::clone`: the duplicate refers to the same cell.
    #[verifier::external_body]
    fn clone(&self) -> (r: Self) {
        CellHandle { cell: self.cell.clone() }
    }
}

/// An open region during witness assignment.
#[verifier::external_body]
pub struct RegionCtx<'r> {
    region: Region<'r, Fp>,
}

/// An open lookup table during table loading.
#[verifier::external_body]
pub struct TableCtx<'r> {
    table: Table<'r, Fp>,
}

/// An error surfaced by the proof system during synthesis. The field is
/// public so that an embedder can hand the proof system its own error back
/// unchanged.
#[verifier::external_body]
pub struct SynthError {
    pub err: Error,
}

/// One group of three advice columns, shared by the chips configured on it.
#[derive(Clone, Copy)]
pub struct AdviceGroup {
    /// First operand column.
    pub x: AdviceColumn,
    /// Second operand (or one-operand result) column.
    pub y: AdviceColumn,
    /// Two-operand result column.
    pub z: AdviceColumn,
}

/// Relies on `AssignedCell::clone`: the duplicate refers to the same cell.
#[verifier::external_body]
pub(crate) fn clone_cell(c: &CellHandle) -> (r: CellHandle) {
    CellHandle { cell: c.cell.clone() }
}

/// Relies on `ConstraintSystem::advice_column`: allocates a fresh advice column.
#[verifier::external_body]
pub(crate) fn cs_advice_column(meta: &mut MetaCtx<'_>) -> (r: AdviceColumn) {
    AdviceColumn { col: meta.cs.advice_column() }
}

/// Relies on `ConstraintSystem::fixed_column`: allocates a fresh fixed column.
#[verifier::external_body]
pub(crate) fn cs_fixed_column(meta: &mut MetaCtx<'_>) -> (r: FixedColumn) {
    FixedColumn { col: meta.cs.fixed_column() }
}

/// Relies on `ConstraintSystem::lookup_table_column`: allocates a fresh
/// lookup-table column.
#[verifier::external_body]
pub(crate) fn cs_lookup_table_column(meta: &mut MetaCtx<'_>) -> (r: LookupColumn) {
    LookupColumn { col: meta.cs.lookup_table_column() }
}

/// Relies on `ConstraintSystem::selector`: allocates a fresh simple selector.
#[verifier::external_body]
pub fn cs_selector(meta: &mut MetaCtx<'_>) -> (r: GateSelector) {
    GateSelector { sel: meta.cs.selector() }
}

/// Relies on `ConstraintSystem::complex_selector`: allocates a fresh complex
/// selector, the kind that may appear in lookup arguments.
#[verifier::external_body]
pub fn cs_complex_selector(meta: &mut MetaCtx<'_>) -> (r: LookupSelector) {
    LookupSelector { sel: meta.cs.complex_selector() }
}

/// Relies on `ConstraintSystem::enable_equality`: allows equality (copy)
/// constraints on the column.
#[verifier::external_body]
pub(crate) fn cs_enable_equality(meta: &mut MetaCtx<'_>, column: AdviceColumn) {
    meta.cs.enable_equality(column.col);
}

/// Relies on `ConstraintSystem::enable_constant`: lets the fixed column hold
/// constants usable in equality constraints.
#[verifier::external_body]
pub(crate) fn cs_enable_constant(meta: &mut MetaCtx<'_>, column: FixedColumn) {
    meta.cs.enable_constant(column.col);
}

/// Relies on `ConstraintSystem::lookup`: declares the lookup argument
/// `(q·tag, q·x) ∈ (t_tag, t_x)`, so whenever `q` is on, the value in `x`
/// must appear in `t_x` on a table row whose tag column holds `tag`.
#[verifier::external_body]
pub(crate) fn cs_lookup_tagged_1(
    meta: &mut MetaCtx<'_>,
    q: LookupSelector,
    tag: u64,
    x: AdviceColumn,
    t_tag: LookupColumn,
    t_x: LookupColumn,
) {
    meta.cs.lookup(|m| {
        let qe = m.query_selector(q.sel);
        let xe = m.query_advice(x.col, Rotation::cur());
        vec![(qe.clone() * Fp::from(tag), t_tag.col), (qe * xe, t_x.col)]
    });
}

/// Relies on `ConstraintSystem::lookup`: declares the lookup argument
/// `(q·tag, q·x, q·y) ∈ (t_tag, t_x, t_y)`.
#[verifier::external_body]
pub(crate) fn cs_lookup_tagged_2(
    meta: &mut MetaCtx<'_>,
    q: LookupSelector,
    tag: u64,
    x: AdviceColumn,
    y: AdviceColumn,
    t_tag: LookupColumn,
    t_x: LookupColumn,
    t_y: LookupColumn,
) {
    meta.cs.lookup(|m| {
        let qe = m.query_selector(q.sel);
        let xe = m.query_advice(x.col, Rotation::cur());
        let ye = m.query_advice(y.col, Rotation::cur());
        vec![
            (qe.clone() * Fp::from(tag), t_tag.col),
            (qe.clone() * xe, t_x.col),
            (qe * ye, t_y.col),
        ]
    });
}

/// Relies on `ConstraintSystem::lookup`: declares the lookup argument
/// `(q·tag, q·x, q·y, q·z) ∈ (t_tag, t_x, t_y, t_z)`.
#[verifier::external_body]
pub(crate) fn cs_lookup_tagged_3(
    meta: &mut MetaCtx<'_>,
    q: LookupSelector,
    tag: u64,
    x: AdviceColumn,
    y: AdviceColumn,
    z: AdviceColumn,
    t_tag: LookupColumn,
    t_x: LookupColumn,
    t_y: LookupColumn,
    t_z: LookupColumn,
) {
    meta.cs.lookup(|m| {
        let qe = m.query_selector(q.sel);
        let xe = m.query_advice(x.col, Rotation::cur());
        let ye = m.query_advice(y.col, Rotation::cur());
        let ze = m.query_advice(z.col, Rotation::cur());
        vec![
            (qe.clone() * Fp::from(tag), t_tag.col),
            (qe.clone() * xe, t_x.col),
            (qe.clone() * ye, t_y.col),
            (qe * ze, t_z.col),
        ]
    });
}

/// Relies on `ConstraintSystem::create_gate`: declares the polynomial gate
/// `q·(advice − fixed) = 0` over the current row, pinning the advice cell to
/// the fixed cell wherever `q` is on.
#[verifier::external_body]
pub(crate) fn cs_gate_advice_equals_fixed(
    meta: &mut MetaCtx<'_>,
    name: &'static str,
    q: GateSelector,
    advice: AdviceColumn,
    fixed: FixedColumn,
) {
    meta.cs.create_gate(name, |m| {
        let qe = m.query_selector(q.sel);
        let xe = m.query_advice(advice.col, Rotation::cur());
        let ce = m.query_fixed(fixed.col);
        let poly = qe * (xe - ce);
        vec![poly]
    });
}

/// Relies on `Selector::enable`: enables the lookup selector at the given
/// row of the open region.
#[verifier::external_body]
pub(crate) fn region_enable_selector(
    ctx: &mut RegionCtx<'_>,
    q: LookupSelector,
    offset: usize,
) -> (r: Result<(), SynthError>) {
    q.sel.enable(&mut ctx.region, offset).map_err(|err| SynthError { err })
}

/// Relies on `Selector::enable` for the rcon equality gate's selector.
#[verifier::external_body]
pub(crate) fn region_enable_gate_selector(
    ctx: &mut RegionCtx<'_>,
    q: GateSelector,
    offset: usize,
) -> (r: Result<(), SynthError>) {
    q.sel.enable(&mut ctx.region, offset).map_err(|err| SynthError { err })
}

/// Relies on `Region::assign_advice`: writes the field encoding of `v`
/// (`Fp::from(v as u64)`) into the advice cell at `(column, offset)`.
#[verifier::external_body]
pub(crate) fn region_assign_advice_byte(
    ctx: &mut RegionCtx<'_>,
    column: AdviceColumn,
    offset: usize,
    v: u8,
) -> (r: Result<CellHandle, SynthError>) {
    ctx.region
        .assign_advice(|| "byte", column.col, offset, || Value::known(Fp::from(v as u64)))
        .map(|cell| CellHandle { cell })
        .map_err(|err| SynthError { err })
}

/// Relies on `AssignedCell::copy_advice`: assigns the cell's value at
/// `(column, offset)` and adds an equality constraint between the two cells,
/// so the new cell carries the same value.
#[verifier::external_body]
pub(crate) fn region_copy_advice(
    ctx: &mut RegionCtx<'_>,
    source: &CellHandle,
    column: AdviceColumn,
    offset: usize,
) -> (r: Result<CellHandle, SynthError>) {
    source
        .cell
        .copy_advice(|| "copy", &mut ctx.region, column.col, offset)
        .map(|cell| CellHandle { cell })
        .map_err(|err| SynthError { err })
}

/// Relies on `Region::assign_fixed`: writes the field encoding of `v` into
/// the fixed cell at `(column, offset)`.
#[verifier::external_body]
pub(crate) fn region_assign_fixed_byte(
    ctx: &mut RegionCtx<'_>,
    column: FixedColumn,
    offset: usize,
    v: u8,
) -> (r: Result<CellHandle, SynthError>) {
    ctx.region
        .assign_fixed(|| "fixed byte", column.col, offset, || Value::known(Fp::from(v as u64)))
        .map(|cell| CellHandle { cell })
        .map_err(|err| SynthError { err })
}

/// Relies on `Table::assign_cell`: writes the field encoding of `v` into the
/// table cell at `(column, offset)`.
#[verifier::external_body]
pub(crate) fn table_assign_value(
    ctx: &mut TableCtx<'_>,
    column: LookupColumn,
    offset: usize,
    v: u64,
) -> (r: Result<(), SynthError>) {
    ctx.table
        .assign_cell(|| "table value", column.col, offset, || Value::known(Fp::from(v)))
        .map_err(|err| SynthError { err })
}

/// Relies on `Layouter::assign_region`: opens one region for one chip row and
/// delegates every assignment in it to the verified routine [`xor_row_in_region`].
#[verifier::external_body]
pub(crate) fn synth_xor_row<L: Layouter<Fp>>(
    layouter: &mut L,
    name: &'static str,
    q: LookupSelector,
    xcol: AdviceColumn,
    ycol: AdviceColumn,
    zcol: AdviceColumn,
    x: &CellHandle,
    y: &CellHandle,
    z: u8,
) -> (r: Result<CellHandle, SynthError>) {
    layouter
        .assign_region(
            || name,
            |region| {
                let mut ctx = RegionCtx { region };
                xor_row_in_region(&mut ctx, q, xcol, ycol, zcol, x, y, z).map_err(|e| e.err)
            },
        )
        .map_err(|err| SynthError { err })
}

/// One row of a two-input lookup chip: enable the selector, copy the two
/// operands into their columns and assign the output byte.
pub(crate) fn xor_row_in_region(
    ctx: &mut RegionCtx<'_>,
    q: LookupSelector,
    xcol: AdviceColumn,
    ycol: AdviceColumn,
    zcol: AdviceColumn,
    x: &CellHandle,
    y: &CellHandle,
    z: u8,
) -> (r: Result<CellHandle, SynthError>) {
    match region_enable_selector(ctx, q, 0) {
        Ok(()) => (),
        Err(e) => {
            return Err(e);
        },
    }
    match region_copy_advice(ctx, x, xcol, 0) {
        Ok(_) => (),
        Err(e) => {
            return Err(e);
        },
    }
    match region_copy_advice(ctx, y, ycol, 0) {
        Ok(_) => (),
        Err(e) => {
            return Err(e);
        },
    }
    region_assign_advice_byte(ctx, zcol, 0, z)
}

/// Relies on `Layouter::assign_region`: opens one region for one chip row and
/// delegates every assignment in it to the verified routine [`map_row_in_region`].
#[verifier::external_body]
pub(crate) fn synth_map_row<L: Layouter<Fp>>(
    layouter: &mut L,
    name: &'static str,
    q: LookupSelector,
    xcol: AdviceColumn,
    ycol: AdviceColumn,
    x: &CellHandle,
    y: u8,
) -> (r: Result<CellHandle, SynthError>) {
    layouter
        .assign_region(
            || name,
            |region| {
                let mut ctx = RegionCtx { region };
                map_row_in_region(&mut ctx, q, xcol, ycol, x, y).map_err(|e| e.err)
            },
        )
        .map_err(|err| SynthError { err })
}

/// One row of a one-input lookup chip: enable the selector, copy the operand
/// and assign the output byte.
pub(crate) fn map_row_in_region(
    ctx: &mut RegionCtx<'_>,
    q: LookupSelector,
    xcol: AdviceColumn,
    ycol: AdviceColumn,
    x: &CellHandle,
    y: u8,
) -> (r: Result<CellHandle, SynthError>) {
    match region_enable_selector(ctx, q, 0) {
        Ok(()) => (),
        Err(e) => {
            return Err(e);
        },
    }
    match region_copy_advice(ctx, x, xcol, 0) {
        Ok(_) => (),
        Err(e) => {
            return Err(e);
        },
    }
    region_assign_advice_byte(ctx, ycol, 0, y)
}

/// Relies on `Layouter::assign_region`: opens one region for one chip row and
/// delegates every assignment in it to the verified routine [`check_row_in_region`].
#[verifier::external_body]
pub(crate) fn synth_check_row<L: Layouter<Fp>>(
    layouter: &mut L,
    name: &'static str,
    q: LookupSelector,
    xcol: AdviceColumn,
    x: &CellHandle,
) -> (r: Result<(), SynthError>) {
    layouter
        .assign_region(
            || name,
            |region| {
                let mut ctx = RegionCtx { region };
                check_row_in_region(&mut ctx, q, xcol, x).map_err(|e| e.err)
            },
        )
        .map_err(|err| SynthError { err })
}

/// One row of a one-input, no-output lookup chip: enable the selector and
/// copy the operand into its column.
pub(crate) fn check_row_in_region(
    ctx: &mut RegionCtx<'_>,
    q: LookupSelector,
    xcol: AdviceColumn,
    x: &CellHandle,
) -> (r: Result<(), SynthError>) {
    match region_enable_selector(ctx, q, 0) {
        Ok(()) => (),
        Err(e) => {
            return Err(e);
        },
    }
    match region_copy_advice(ctx, x, xcol, 0) {
        Ok(_) => Ok(()),
        Err(e) => Err(e),
    }
}

/// Relies on `Layouter::assign_region`: opens one region for a single plain
/// copy (no selector) and delegates it to the verified routine
/// [`copy_row_in_region`].
#[verifier::external_body]
pub(crate) fn synth_copy_row<L: Layouter<Fp>>(
    layouter: &mut L,
    name: &'static str,
    col: AdviceColumn,
    x: &CellHandle,
) -> (r: Result<CellHandle, SynthError>) {
    layouter
        .assign_region(
            || name,
            |region| {
                let mut ctx = RegionCtx { region };
                copy_row_in_region(&mut ctx, col, x).map_err(|e| e.err)
            },
        )
        .map_err(|err| SynthError { err })
}

/// A plain equality copy of one cell into a fresh row.
pub(crate) fn copy_row_in_region(
    ctx: &mut RegionCtx<'_>,
    col: AdviceColumn,
    x: &CellHandle,
) -> (r: Result<CellHandle, SynthError>) {
    region_copy_advice(ctx, x, col, 0)
}

/// Relies on `Layouter::assign_region`: opens one region and delegates every
/// assignment in it to the verified routine [`bytes_in_region`]. On success
/// the returned cells correspond one to one to `vals`.
#[verifier::external_body]
pub(crate) fn synth_bytes_region<L: Layouter<Fp>>(
    layouter: &mut L,
    name: &'static str,
    col: AdviceColumn,
    vals: &Vec<u8>,
) -> (r: Result<Vec<CellHandle>, SynthError>)
    ensures
        r is Ok ==> r->Ok_0@.len() == vals@.len(),
{
    layouter
        .assign_region(
            || name,
            |region| {
                let mut ctx = RegionCtx { region };
                bytes_in_region(&mut ctx, col, vals).map_err(|e| e.err)
            },
        )
        .map_err(|err| SynthError { err })
}

/// Assign a run of byte values into consecutive rows of one advice column.
pub(crate) fn bytes_in_region(
    ctx: &mut RegionCtx<'_>,
    col: AdviceColumn,
    vals: &Vec<u8>,
) -> (r: Result<Vec<CellHandle>, SynthError>)
    ensures
        r is Ok ==> r->Ok_0@.len() == vals@.len(),
{
    let mut out: Vec<CellHandle> = Vec::new();
    let mut i: usize = 0;
    while i < vals.len()
        invariant
            i <= vals@.len(),
            out@.len() == i,
        decreases vals@.len() - i,
    {
        match region_assign_advice_byte(ctx, col, i, vals[i]) {
            Ok(cell) => out.push(cell),
            Err(e) => {
                return Err(e);
            },
        }
        i = i + 1;
    }
    Ok(out)
}

/// Relies on `Layouter::assign_region`: opens one region and delegates every
/// assignment in it to the verified routine [`copies_in_region`]. On success
/// the returned cells correspond one to one to `cells`.
#[verifier::external_body]
pub(crate) fn synth_copies_region<L: Layouter<Fp>>(
    layouter: &mut L,
    name: &'static str,
    col: AdviceColumn,
    cells: &Vec<CellHandle>,
) -> (r: Result<Vec<CellHandle>, SynthError>)
    ensures
        r is Ok ==> r->Ok_0@.len() == cells@.len(),
{
    layouter
        .assign_region(
            || name,
            |region| {
                let mut ctx = RegionCtx { region };
                copies_in_region(&mut ctx, col, cells).map_err(|e| e.err)
            },
        )
        .map_err(|err| SynthError { err })
}

/// Copy the given cells, in order, into consecutive rows of one column.
pub(crate) fn copies_in_region(
    ctx: &mut RegionCtx<'_>,
    col: AdviceColumn,
    cells: &Vec<CellHandle>,
) -> (r: Result<Vec<CellHandle>, SynthError>)
    ensures
        r is Ok ==> r->Ok_0@.len() == cells@.len(),
{
    let mut out: Vec<CellHandle> = Vec::new();
    let mut i: usize = 0;
    while i < cells.len()
        invariant
            i <= cells@.len(),
            out@.len() == i,
        decreases cells@.len() - i,
    {
        match region_copy_advice(ctx, &cells[i], col, i) {
            Ok(cell) => out.push(cell),
            Err(e) => {
                return Err(e);
            },
        }
        i = i + 1;
    }
    Ok(out)
}

/// Relies on `Layouter::assign_region`: opens one region and delegates every
/// assignment in it to the verified routine [`rcon_word_in_region`]. On
/// success exactly four cells are returned.
#[verifier::external_body]
pub(crate) fn synth_rcon_word_region<L: Layouter<Fp>>(
    layouter: &mut L,
    name: &'static str,
    q: GateSelector,
    advice: AdviceColumn,
    fixed: FixedColumn,
    rc: u8,
) -> (r: Result<Vec<CellHandle>, SynthError>)
    ensures
        r is Ok ==> r->Ok_0@.len() == 4,
{
    layouter
        .assign_region(
            || name,
            |region| {
                let mut ctx = RegionCtx { region };
                rcon_word_in_region(&mut ctx, q, advice, fixed, rc).map_err(|e| e.err)
            },
        )
        .map_err(|err| SynthError { err })
}

/// Assign the round-constant word `[rc, 0, 0, 0]`. The first advice row is
/// pinned to the fixed cell holding `rc` by the equality gate guarded by `q`;
/// the remaining three rows hold zero.
pub(crate) fn rcon_word_in_region(
    ctx: &mut RegionCtx<'_>,
    q: GateSelector,
    advice: AdviceColumn,
    fixed: FixedColumn,
    rc: u8,
) -> (r: Result<Vec<CellHandle>, SynthError>)
    ensures
        r is Ok ==> r->Ok_0@.len() == 4,
{
    match region_enable_gate_selector(ctx, q, 0) {
        Ok(()) => (),
        Err(e) => {
            return Err(e);
        },
    }
    match region_assign_fixed_byte(ctx, fixed, 0, rc) {
        Ok(_) => (),
        Err(e) => {
            return Err(e);
        },
    }
    let mut out: Vec<CellHandle> = Vec::new();
    match region_assign_advice_byte(ctx, advice, 0, rc) {
        Ok(cell) => out.push(cell),
        Err(e) => {
            return Err(e);
        },
    }
    let mut i: usize = 1;
    while i < 4
        invariant
            1 <= i <= 4,
            out@.len() == i,
        decreases 4 - i,
    {
        match region_assign_advice_byte(ctx, advice, i, 0) {
            Ok(cell) => out.push(cell),
            Err(e) => {
                return Err(e);
            },
        }
        i = i + 1;
    }
    Ok(out)
}

/// Relies on `Layouter::assign_table`: opens the table region once and
/// delegates every cell to the verified routine
/// [`crate::table::fill_enc_table`].
#[verifier::external_body]
pub(crate) fn synth_enc_table<L: Layouter<Fp>>(
    layouter: &mut L,
    columns: crate::table::EncTableColumns,
    rows: &Vec<crate::table::TableRow>,
) -> (r: Result<(), SynthError>) {
    layouter
        .assign_table(
            || "tagged table",
            |table| {
                let mut ctx = TableCtx { table };
                crate::table::fill_enc_table(&mut ctx, columns, rows).map_err(|e| e.err)
            },
        )
        .map_err(|err| SynthError { err })
}

/// Relies on `Layouter::assign_table`: opens the table region once and
/// delegates every cell to the verified routine [`fill_value_column`].
#[verifier::external_body]
pub(crate) fn synth_value_column<L: Layouter<Fp>>(
    layouter: &mut L,
    name: &'static str,
    column: LookupColumn,
    vals: &Vec<u64>,
) -> (r: Result<(), SynthError>) {
    layouter
        .assign_table(
            || name,
            |table| {
                let mut ctx = TableCtx { table };
                fill_value_column(&mut ctx, column, vals).map_err(|e| e.err)
            },
        )
        .map_err(|err| SynthError { err })
}

/// Write the given values into consecutive rows of one table column.
pub(crate) fn fill_value_column(
    ctx: &mut TableCtx<'_>,
    column: LookupColumn,
    vals: &Vec<u64>,
) -> (r: Result<(), SynthError>) {
    let mut i: usize = 0;
    while i < vals.len()
        invariant
            i <= vals@.len(),
        decreases vals@.len() - i,
    {
        match table_assign_value(ctx, column, i, vals[i]) {
            Ok(()) => (),
            Err(e) => {
                return Err(e);
            },
        }
        i = i + 1;
    }
    Ok(())
}

} // verus!
