pub mod gf_mul_chip;
pub mod sbox_chip;
pub mod u8_range_check_chip;
pub mod u8_xor_chip;
