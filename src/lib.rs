//! Execution core of a Game Boy (DMG) emulator: the flag arithmetic of the
//! ALU, the address-decoding memory unit with its derived tileset cache, the
//! instruction step tables and the machine-cycle tick pump of the CPU.
pub mod alu;
pub mod cpu;
pub mod decoder;
pub mod mmu;
