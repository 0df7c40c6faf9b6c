//! A cycle-accounted core for an 8-bit handheld console: processor, bus,
//! video unit, timer and interrupt controller, each with a machine-checked
//! contract.

pub mod bits;
pub mod interrupts;
pub mod timer;
pub mod ppu;
pub mod memory;
pub mod cpu;
pub mod machine;
