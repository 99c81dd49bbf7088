//! A Glulx virtual machine core: image loading and validation, a flat
//! big-endian memory with a writable RAM region, and the instruction decoder.

pub mod memory;
pub mod opcode;
pub mod decode;
pub mod terp;
