//! Golden rows of the shared tagged lookup table.

use halo2_aes::table::u8_range_check::u8_table_values;
use halo2_aes::table::u8_xor::{xor_table_columns, XOR_TABLE_ROWS};
use halo2_aes::table::{
    enc_table_rows, TableRow, ENC_TABLE_ROWS, TAG_GF_MUL_2, TAG_GF_MUL_3, TAG_SBOX, TAG_U8,
    TAG_XOR,
};

#[test]
fn test_table_dimensions_and_golden_rows() {
    let rows = enc_table_rows();
    assert_eq!(rows.len(), ENC_TABLE_ROWS);
    assert_eq!(rows.len(), 66561);

    // U8 membership slice.
    assert_eq!(rows[0], TableRow { tag: TAG_U8, x: 0, y: 0, z: 0 });
    assert_eq!(rows[255], TableRow { tag: TAG_U8, x: 255, y: 0, z: 0 });

    // S-box slice.
    assert_eq!(rows[256], TableRow { tag: TAG_SBOX, x: 0, y: 0x63, z: 0 });
    assert_eq!(rows[256 + 0x53], TableRow { tag: TAG_SBOX, x: 0x53, y: 0xED, z: 0 });
    assert_eq!(rows[256 + 255], TableRow { tag: TAG_SBOX, x: 255, y: 0x16, z: 0 });

    // XOR slice: row 512 + 256*a + b holds a ^ b.
    let a = 0x0Fu64;
    let b = 0xF0u64;
    let idx = 512 + 256 * a as usize + b as usize;
    assert_eq!(rows[idx], TableRow { tag: TAG_XOR, x: a, y: b, z: 0xFF });
    assert_eq!(rows[512], TableRow { tag: TAG_XOR, x: 0, y: 0, z: 0 });

    // GF multiplication slices.
    assert_eq!(rows[66048 + 0x80], TableRow { tag: TAG_GF_MUL_2, x: 0x80, y: 0x1B, z: 0 });
    assert_eq!(rows[66304 + 0xFF], TableRow { tag: TAG_GF_MUL_3, x: 0xFF, y: 0x1A, z: 0 });

    // The zero sentinel row for disabled selectors.
    assert_eq!(rows[66560], TableRow { tag: 0, x: 0, y: 0, z: 0 });
}

#[test]
fn test_u8_range_table_values() {
    let vals = u8_table_values();
    assert_eq!(vals.len(), 256);
    for (i, &v) in vals.iter().enumerate() {
        assert_eq!(v, i as u64);
    }
}

#[test]
fn test_u8_xor_table_columns() {
    let (xs, ys, zs) = xor_table_columns();
    assert_eq!(xs.len(), XOR_TABLE_ROWS);
    assert_eq!(ys.len(), XOR_TABLE_ROWS);
    assert_eq!(zs.len(), XOR_TABLE_ROWS);
    // Every ordered pair of bytes once, at row 256*a + b, with its XOR;
    // the pairs with 255 included.
    for a in 0..=255u64 {
        for b in 0..=255u64 {
            let n = (256 * a + b) as usize;
            assert_eq!(xs[n], a);
            assert_eq!(ys[n], b);
            assert_eq!(zs[n], ((a as u8) ^ (b as u8)) as u64);
        }
    }
}

#[test]
fn test_table_load_repeatable() {
    // Two loads write byte-wise identical contents.
    let first = enc_table_rows();
    let second = enc_table_rows();
    assert_eq!(first, second);
}
