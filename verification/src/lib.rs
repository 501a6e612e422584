//! A verified interpreter for the classic 35-instruction byte-code machine:
//! a 4096-byte memory, sixteen 8-bit registers, a monochrome 32x64 bitmap
//! display with XOR-plot semantics, a 16-key input matrix, and two 60 Hz-class
//! timers, driven by a cooperative scheduler with an injected clock.

pub mod machine;
pub mod decode;
pub mod ops;
pub mod draw;
pub mod cpu;
pub mod sched;
pub mod laws;
pub mod rng;
