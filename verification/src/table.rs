//! The shared tagged lookup table.
//!
//! Five semantic tables are packed into one physical table of four columns
//! `(tag, x, y, z)`: U8 membership, the S-box, XOR, and the GF(2^8)
//! multiplications by 2 and 3, followed by one all-zero sentinel row that
//! disabled selectors fall back to. [`enc_table_row`] pins every row, and
//! [`enc_table_rows`] computes exactly those rows; [`load_enc_full_table`]
//! writes them into the embedder's table columns.

pub mod u8_range_check;
pub mod u8_xor;

use vstd::prelude::*;

use halo2_proofs::circuit::Layouter;
use halo2_proofs::pasta::Fp;

use crate::halo2_api::{synth_enc_table, table_assign_value, LookupColumn, SynthError, TableCtx};
use crate::model::{gmul3, sbox_val, xtime};
use crate::utils::{mul_by_2, mul_by_3, sub_byte, xor_bytes};

verus! {

/// Tag of the U8 membership rows.
pub const TAG_U8: u64 = 1;

/// Tag of the XOR rows.
pub const TAG_XOR: u64 = 2;

/// Tag of the S-box rows.
pub const TAG_SBOX: u64 = 3;

/// Tag of the GF(2^8) multiply-by-2 rows.
pub const TAG_GF_MUL_2: u64 = 4;

/// Tag of the GF(2^8) multiply-by-3 rows.
pub const TAG_GF_MUL_3: u64 = 5;

/// Number of rows of the tagged table: 256 U8 rows, 256 S-box rows, 65536
/// XOR rows, 256 multiply-by-2 rows, 256 multiply-by-3 rows and the zero
/// sentinel row.
pub const ENC_TABLE_ROWS: usize = 66561;

/// One row of the tagged table.
#[derive(Clone, Copy, PartialEq, Eq, Structural, Debug)]
pub struct TableRow {
    /// Which semantic table the row belongs to.
    pub tag: u64,
    /// First operand.
    pub x: u64,
    /// Second operand, or the one-operand result.
    pub y: u64,
    /// Result of a two-operand row.
    pub z: u64,
}

/// The four columns an embedder provides for the tagged table.
#[derive(Clone, Copy)]
pub struct EncTableColumns {
    /// The tag column.
    pub tag: LookupColumn,
    /// The `x` column.
    pub x: LookupColumn,
    /// The `y` column.
    pub y: LookupColumn,
    /// The `z` column.
    pub z: LookupColumn,
}

/// Row `i` of the tagged table.
pub open spec fn enc_table_row(i: int) -> TableRow {
    if 0 <= i < 256 {
        TableRow { tag: TAG_U8, x: i as u64, y: 0, z: 0 }
    } else if i < 512 {
        TableRow { tag: TAG_SBOX, x: (i - 256) as u64, y: sbox_val((i - 256) as u8) as u64, z: 0 }
    } else if i < 66048 {
        TableRow {
            tag: TAG_XOR,
            x: ((i - 512) / 256) as u64,
            y: ((i - 512) % 256) as u64,
            z: ((((i - 512) / 256) as u8) ^ (((i - 512) % 256) as u8)) as u64,
        }
    } else if i < 66304 {
        TableRow {
            tag: TAG_GF_MUL_2,
            x: (i - 66048) as u64,
            y: xtime((i - 66048) as u8) as u64,
            z: 0,
        }
    } else if i < 66560 {
        TableRow {
            tag: TAG_GF_MUL_3,
            x: (i - 66304) as u64,
            y: gmul3((i - 66304) as u8) as u64,
            z: 0,
        }
    } else {
        TableRow { tag: 0, x: 0, y: 0, z: 0 }
    }
}

/// Compute the full contents of the tagged table, row by row.
pub fn enc_table_rows() -> (r: Vec<TableRow>)
    ensures
        r@.len() == ENC_TABLE_ROWS,
        forall|i: int| 0 <= i < ENC_TABLE_ROWS ==> r@[i] == enc_table_row(i),
{
    let mut rows: Vec<TableRow> = Vec::new();
    let mut i: usize = 0;
    while i < 66561
        invariant
            i <= 66561,
            rows@.len() == i,
            forall|k: int| 0 <= k < i ==> rows@[k] == enc_table_row(k),
        decreases 66561 - i,
    {
        let row = if i < 256 {
            TableRow { tag: TAG_U8, x: i as u64, y: 0, z: 0 }
        } else if i < 512 {
            let b = (i - 256) as u8;
            TableRow { tag: TAG_SBOX, x: (i - 256) as u64, y: sub_byte(b) as u64, z: 0 }
        } else if i < 66048 {
            let n = i - 512;
            let a = (n / 256) as u8;
            let b = (n % 256) as u8;
            TableRow {
                tag: TAG_XOR,
                x: (n / 256) as u64,
                y: (n % 256) as u64,
                z: xor_bytes(a, b) as u64,
            }
        } else if i < 66304 {
            let b = (i - 66048) as u8;
            TableRow { tag: TAG_GF_MUL_2, x: (i - 66048) as u64, y: mul_by_2(b) as u64, z: 0 }
        } else if i < 66560 {
            let b = (i - 66304) as u8;
            TableRow { tag: TAG_GF_MUL_3, x: (i - 66304) as u64, y: mul_by_3(b) as u64, z: 0 }
        } else {
            TableRow { tag: 0, x: 0, y: 0, z: 0 }
        };
        rows.push(row);
        i = i + 1;
    }
    rows
}

/// Write every row into the four table columns of the open table region.
pub(crate) fn fill_enc_table(
    ctx: &mut TableCtx<'_>,
    columns: EncTableColumns,
    rows: &Vec<TableRow>,
) -> (r: Result<(), SynthError>) {
    let mut i: usize = 0;
    while i < rows.len()
        invariant
            i <= rows@.len(),
        decreases rows@.len() - i,
    {
        let row = rows[i];
        match table_assign_value(ctx, columns.tag, i, row.tag) {
            Ok(()) => (),
            Err(e) => {
                return Err(e);
            },
        }
        match table_assign_value(ctx, columns.x, i, row.x) {
            Ok(()) => (),
            Err(e) => {
                return Err(e);
            },
        }
        match table_assign_value(ctx, columns.y, i, row.y) {
            Ok(()) => (),
            Err(e) => {
                return Err(e);
            },
        }
        match table_assign_value(ctx, columns.z, i, row.z) {
            Ok(()) => (),
            Err(e) => {
                return Err(e);
            },
        }
        i = i + 1;
    }
    Ok(())
}

/// Load the shared tagged table into the given table columns. To be called
/// once per circuit by the embedder; the rows written are exactly those of
/// [`enc_table_row`], computed by [`enc_table_rows`].
pub fn load_enc_full_table<L: Layouter<Fp>>(
    layouter: &mut L,
    tables: EncTableColumns,
) -> (r: Result<(), SynthError>) {
    let rows = enc_table_rows();
    synth_enc_table(layouter, tables, &rows)
}

/// The tagged table has one fixed content: any two loads write identical
/// rows, whatever columns they are loaded into.
pub proof fn lemma_table_load_deterministic(a: Seq<TableRow>, b: Seq<TableRow>)
    requires
        a.len() == ENC_TABLE_ROWS,
        b.len() == ENC_TABLE_ROWS,
        forall|i: int| 0 <= i < ENC_TABLE_ROWS ==> a[i] == enc_table_row(i),
        forall|i: int| 0 <= i < ENC_TABLE_ROWS ==> b[i] == enc_table_row(i),
    ensures
        a == b,
{
    assert forall|i: int| 0 <= i < a.len() implies a[i] == b[i] by {
        assert(a[i] == enc_table_row(i));
        assert(b[i] == enc_table_row(i));
    }
    assert(a =~= b);
}

} // verus!
