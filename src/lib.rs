//! A MOS 6502 toolchain: a two-pass assembler from source lines to a sparse
//! address-to-byte map, and a CPU core that advances one clock phase at a
//! time and exposes its bus so that a host can drive memory in lockstep.
pub mod assembler;
pub mod instruct;
pub mod m6502;
pub mod memory;
