//! Decoding of 32-bit RISC-V base-integer instruction words into structured,
//! classified records.

pub mod consts;
pub mod decode;
pub mod fields;
pub mod immediate;
