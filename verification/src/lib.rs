//! Instruction-set simulator for a 32-bit RISC-V-derived processor with a
//! packed-arithmetic (DSP) extension: a flat little-endian byte memory, a
//! pure decoder from raw 32-bit words to tagged instructions, an execution
//! unit over a 32-entry register file, and a fetch-decode-execute loop.

pub mod bits;
pub mod isa;
pub mod mem;
pub mod cpu;
pub mod sim;
