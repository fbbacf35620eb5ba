//! A Game Boy (DMG) emulator core: the processor's instruction semantics, its
//! interrupt and serial-port handling, and the background renderer.
pub mod bits;
pub mod cpu;
pub mod decode;
pub mod semantics;
pub mod alu;
pub mod exec;
pub mod step;
pub mod memory;
pub mod video;
pub mod laws;
pub mod instruction_laws;
pub mod transfer_laws;
