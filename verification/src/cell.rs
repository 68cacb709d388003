//! A byte-valued advice cell: the handle to the assigned cell together with
//! the witness byte it was assigned from.

use vstd::prelude::*;

use crate::halo2_api::{clone_cell, CellHandle};

verus! {

/// One assigned advice cell whose canonical value is the byte `value`.
///
/// Every `ByteCell` in the crate is produced by a chip operation or an
/// assignment wrapper that writes exactly `Fp::from(value as u64)` into the
/// cell, so the canonical field-element value always lies in 0..=255.
pub struct ByteCell {
    /// Handle to the assigned cell inside the proof system.
    pub cell: CellHandle,
    /// The byte the cell was assigned from.
    pub value: u8,
}

impl Clone for ByteCell {
    /// A second handle to the same cell, carrying the same byte.
    fn clone(&self) -> (r: Self)
        ensures
            r.value == self.value,
    {
        ByteCell { cell: clone_cell(&self.cell), value: self.value }
    }
}

impl ByteCell {
    /// A second handle to the same cell, carrying the same byte.
    pub fn duplicate(&self) -> (r: ByteCell)
        ensures
            r.value == self.value,
    {
        ByteCell { cell: clone_cell(&self.cell), value: self.value }
    }
}

/// The byte values of a sequence of cells.
pub open spec fn values(cells: Seq<ByteCell>) -> Seq<u8> {
    cells.map_values(|c: ByteCell| c.value)
}

/// Second handles to the same cells, carrying the same bytes.
pub fn duplicate_cells(v: &Vec<ByteCell>) -> (r: Vec<ByteCell>)
    ensures
        r@.len() == v@.len(),
        values(r@) == values(v@),
{
    let mut out: Vec<ByteCell> = Vec::new();
    let mut i: usize = 0;
    while i < v.len()
        invariant
            i <= v@.len(),
            out@.len() == i,
            forall|j: int| 0 <= j < i ==> out@[j].value == v@[j].value,
        decreases v@.len() - i,
    {
        out.push(v[i].duplicate());
        i = i + 1;
    }
    proof {
        assert(values(out@) =~= values(v@));
    }
    out
}

/// Every assigned byte cell holds a canonical value in 0..=255: each cell is
/// created from a `u8` witness byte, which its assignment wrapper embeds as
/// that byte's field element.
pub proof fn lemma_byte_values_in_range(cells: Seq<ByteCell>)
    ensures
        forall|i: int| 0 <= i < cells.len() ==> 0 <= #[trigger] values(cells)[i] <= 255,
{
}

} // verus!
